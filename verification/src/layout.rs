//! The keys of the two input devices.

use vstd::prelude::*;
use crate::names::underscore_free;
use crate::variable::distinct_names;

verus! {

/// The texts of a row of key names.
pub open spec fn key_texts(keys: Seq<&'static str>) -> Seq<Seq<char>> {
    Seq::new(keys.len(), |i: int| keys[i]@)
}

/// The keys of the keyboard, in the order of their buttons.
pub open spec fn keyboard_keys() -> Seq<Seq<char>> {
    seq![
        "A"@, "B"@, "C"@, "D"@, "E"@, "F"@, "G"@, "H"@, "I"@, "J"@, "K"@, "L"@, "M"@,
        "N"@, "O"@, "P"@, "Q"@, "R"@, "S"@, "T"@, "U"@, "V"@, "W"@, "X"@, "Y"@, "Z"@,
    ]
}

/// The keys of the cursor control device, in the order of their buttons.
pub open spec fn cursor_control_keys() -> Seq<Seq<char>> {
    seq!["ESC"@, "KBD"@, "REWIND"@, "FORWARD"@]
}

/// The keys of the keyboard, in the order of their buttons.
pub fn keyboard_layout() -> (keys: Vec<&'static str>)
    ensures
        key_texts(keys@) == keyboard_keys(),
{
    let keys = vec![
        "A", "B", "C", "D", "E", "F", "G", "H", "I", "J", "K", "L", "M",
        "N", "O", "P", "Q", "R", "S", "T", "U", "V", "W", "X", "Y", "Z",
    ];
    assert(key_texts(keys@) =~= keyboard_keys());
    keys
}

/// The keys of the cursor control device, in the order of their buttons.
pub fn cursor_control_layout() -> (keys: Vec<&'static str>)
    ensures
        key_texts(keys@) == cursor_control_keys(),
{
    let keys = vec!["ESC", "KBD", "REWIND", "FORWARD"];
    assert(key_texts(keys@) =~= cursor_control_keys());
    keys
}

/// The keys of the whole unit: those of the cursor control device, then those
/// of the keyboard.
pub open spec fn unit_keys() -> Seq<Seq<char>> {
    cursor_control_keys() + keyboard_keys()
}

/// The two output buses of the unit.
pub open spec fn unit_buses() -> Seq<Seq<char>> {
    seq!["1"@, "2"@]
}

/// No key of the unit holds an underscore, no two keys of the unit have the
/// same name, and none is named like an output bus.
pub proof fn lemma_unit_keys_plain()
    ensures
        forall|i: int| 0 <= i < unit_keys().len() ==> underscore_free(#[trigger] unit_keys()[i]),
        forall|i: int| 0 <= i < unit_buses().len() ==> underscore_free(#[trigger] unit_buses()[i]),
        distinct_names(unit_keys()),
        distinct_names(unit_buses()),
        forall|i: int, j: int|
            0 <= i < unit_keys().len() && 0 <= j < unit_buses().len() ==> unit_keys()[i]
                != unit_buses()[j],
{
    reveal_strlit("ESC");
    reveal_strlit("KBD");
    reveal_strlit("REWIND");
    reveal_strlit("FORWARD");
    reveal_strlit("A");
    reveal_strlit("B");
    reveal_strlit("C");
    reveal_strlit("D");
    reveal_strlit("E");
    reveal_strlit("F");
    reveal_strlit("G");
    reveal_strlit("H");
    reveal_strlit("I");
    reveal_strlit("J");
    reveal_strlit("K");
    reveal_strlit("L");
    reveal_strlit("M");
    reveal_strlit("N");
    reveal_strlit("O");
    reveal_strlit("P");
    reveal_strlit("Q");
    reveal_strlit("R");
    reveal_strlit("S");
    reveal_strlit("T");
    reveal_strlit("U");
    reveal_strlit("V");
    reveal_strlit("W");
    reveal_strlit("X");
    reveal_strlit("Y");
    reveal_strlit("Z");
    reveal_strlit("1");
    reveal_strlit("2");
    reveal_strlit("_");
    let keys = unit_keys();
    assert(keys.len() == 30);
    assert forall|i: int| 0 <= i < keys.len() implies underscore_free(#[trigger] keys[i]) by {}
    assert forall|i: int, j: int| 0 <= i < j < keys.len() implies keys[i] != keys[j] by {
        assert(keys[i].len() != keys[j].len() || keys[i][0] != keys[j][0]);
    }
    assert forall|i: int, j: int| 0 <= i < keys.len() && 0 <= j < unit_buses().len() implies keys[i]
        != unit_buses()[j] by {
        assert(keys[i][0] != unit_buses()[j][0]);
    }
    assert(unit_buses()[0][0] != unit_buses()[1][0]);
}

} // verus!
