//! The names under which the unit's variables are known to the simulator.
//!
//! Tools outside the simulation bind to these names, so they are fixed: a key
//! is `KCCU_<side>_<key>`, an output bus is `KCCU_CAN_BUS_<side>_<bus>`.

use vstd::prelude::*;
use vstd::string::*;

verus! {

/// The name of the variable of the key `key` on the unit of side `side`.
pub open spec fn button_name(side: Seq<char>, key: Seq<char>) -> Seq<char> {
    "KCCU_"@ + side + "_"@ + key
}

/// The name of the variable of the output bus `bus` of the unit of side `side`.
pub open spec fn can_bus_name(side: Seq<char>, bus: Seq<char>) -> Seq<char> {
    "KCCU_CAN_BUS_"@ + side + "_"@ + bus
}

/// Whether `text` holds no underscore.
pub open spec fn underscore_free(text: Seq<char>) -> bool {
    forall|i: int| 0 <= i < text.len() ==> text[i] != '_'
}

/// The name of the variable of the key `key` on the unit of side `side`.
pub fn button_variable_name(side: &str, key: &str) -> (name: String)
    ensures
        name@ == button_name(side@, key@),
{
    String::from_str("KCCU_").concat(side).concat("_").concat(key)
}

/// The name of the variable of the output bus `bus` of the unit of side `side`.
pub fn can_bus_variable_name(side: &str, bus: &str) -> (name: String)
    ensures
        name@ == can_bus_name(side@, bus@),
{
    String::from_str("KCCU_CAN_BUS_").concat(side).concat("_").concat(bus)
}

/// A bus name is the key name of the side `CAN_BUS_<side>` and the key `<bus>`.
pub proof fn lemma_can_bus_name_is_button_name(side: Seq<char>, bus: Seq<char>)
    ensures
        can_bus_name(side, bus) == button_name("CAN_BUS_"@ + side, bus),
{
    reveal_strlit("KCCU_");
    reveal_strlit("CAN_BUS_");
    reveal_strlit("KCCU_CAN_BUS_");
    assert("KCCU_CAN_BUS_"@ =~= "KCCU_"@ + "CAN_BUS_"@);
    assert(can_bus_name(side, bus) =~= button_name("CAN_BUS_"@ + side, bus));
}

/// Key names tell side and key apart: two of them are equal only where both
/// the sides and the keys are, as long as no key holds an underscore.
pub proof fn lemma_button_name_injective(
    side_a: Seq<char>,
    key_a: Seq<char>,
    side_b: Seq<char>,
    key_b: Seq<char>,
)
    requires
        underscore_free(key_a),
        underscore_free(key_b),
        button_name(side_a, key_a) == button_name(side_b, key_b),
    ensures
        side_a == side_b,
        key_a == key_b,
{
    reveal_strlit("KCCU_");
    reveal_strlit("_");
    let name_a = button_name(side_a, key_a);
    let name_b = button_name(side_b, key_b);
    assert(name_a.len() == 6 + side_a.len() + key_a.len());
    assert(name_b.len() == 6 + side_b.len() + key_b.len());
    if key_a.len() < key_b.len() {
        let at: int = side_a.len() as int + 5;
        assert(name_a[at] == '_');
        assert(name_b[at] == key_b[at - 6 - side_b.len()]);
        assert(false);
    }
    if key_b.len() < key_a.len() {
        let at: int = side_b.len() as int + 5;
        assert(name_b[at] == '_');
        assert(name_a[at] == key_a[at - 6 - side_a.len()]);
        assert(false);
    }
    assert(side_a =~= side_b) by {
        assert forall|i: int| 0 <= i < side_a.len() implies side_a[i] == side_b[i] by {
            assert(name_a[5 + i] == side_a[i]);
            assert(name_b[5 + i] == side_b[i]);
        }
    }
    assert(key_a =~= key_b) by {
        assert forall|i: int| 0 <= i < key_a.len() implies key_a[i] == key_b[i] by {
            assert(name_a[6 + side_a.len() + i] == key_a[i]);
            assert(name_b[6 + side_b.len() + i] == key_b[i]);
        }
    }
}

} // verus!
