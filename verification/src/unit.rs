//! The keyboard and cursor control unit: the root of the tree.

use vstd::prelude::*;
use crate::binary64::Binary64;
use crate::button::ButtonView;
use crate::cursor_control_device::{CursorControlDevice, CursorControlDeviceView};
use crate::electrical::ElectricalBusType;
use crate::keyboard::{Keyboard, KeyboardView};
use crate::keys::{
    button_identifiers, buttons_named, buttons_read, buttons_released, buttons_traversal, buttons_written, key_names,
    lemma_buttons_written_at, lemma_buttons_written_idle, lemma_buttons_written_joined,
    lemma_buttons_written_writes, row_presses, row_writes,
};
use crate::layout::{
    cursor_control_keys, keyboard_keys, lemma_unit_keys_plain, unit_buses, unit_keys,
};
use crate::names::{
    button_name, can_bus_name, can_bus_variable_name, lemma_button_name_injective,
    lemma_can_bus_name_is_button_name,
};
use crate::simulation::{
    visit_outcome, Phase, SimulationElement, SimulationElementVisitor, Trace, Visitable,
};
use crate::store::{StoreState, VariableStore};
use crate::variable::{
    distinct_names, lemma_identifier_tells_name, lemma_register_all_fresh,
    lemma_register_all_joined, lemma_register_all_keeps, lemma_register_all_one, names_resolve,
    register_all, InitContext, VariableIdentifier,
};

verus! {

/// What a device that takes key strokes reports to the logic that dispatches
/// them.
pub trait KccuInputComponent {
    /// Whether a key is down.
    fn key_pressed(&self) -> bool;

    /// Which key is down, by its index.
    fn pressed_key_index(&self) -> usize;

    /// Whether more was typed than the device could take.
    fn key_overflow(&self) -> bool;
}

/// The unit: a cursor control device, a keyboard, and two output buses.
pub struct KeyboardAndCursorControlUnit {
    ccd: CursorControlDevice,
    kbd: Keyboard,
    output_can_bus_1: VariableIdentifier,
    output_can_bus_2: VariableIdentifier,
}

/// What a unit is to its contracts.
pub struct KeyboardAndCursorControlUnitView {
    pub ccd: CursorControlDeviceView,
    pub kbd: KeyboardView,
    pub output_can_bus_1: VariableIdentifier,
    pub output_can_bus_2: VariableIdentifier,
}

/// The names of the variables of the unit of side `side`, in the order in
/// which the unit registers them: the keys of the cursor control device, the
/// keys of the keyboard, the two output buses.
pub open spec fn unit_names(side: Seq<char>) -> Seq<Seq<char>> {
    key_names(side, cursor_control_keys()) + key_names(side, keyboard_keys()) + seq![
        can_bus_name(side, "1"@),
        can_bus_name(side, "2"@),
    ]
}

impl KeyboardAndCursorControlUnitView {
    /// The invariant of a unit: its two output buses are different variables.
    pub open spec fn wf(self) -> bool {
        self.output_can_bus_1 != self.output_can_bus_2
    }

    /// The buttons of the unit in the order in which a pass visits them: those
    /// of the cursor control device, then those of the keyboard.
    pub open spec fn keys(self) -> Seq<ButtonView> {
        self.ccd.keys + self.kbd.keys
    }

    /// The identifiers of the unit, in the order of `unit_names`: those of the
    /// buttons, then the two output buses.
    pub open spec fn identifiers(self) -> Seq<VariableIdentifier> {
        button_identifiers(self.keys()) + seq![
            self.output_can_bus_1,
            self.output_can_bus_2,
        ]
    }

    /// One tick of the unit: the read pass over the whole tree, then the
    /// write pass over the whole tree. The result is the unit and the store
    /// after the tick.
    pub open spec fn tick(self, store: StoreState) -> (
        KeyboardAndCursorControlUnitView,
        StoreState,
    ) {
        let unit = KeyboardAndCursorControlUnit::traversed(self, Phase::Read, store).1;
        (unit, KeyboardAndCursorControlUnit::traversed(unit, Phase::Write, store).0)
    }

    /// Whether the unit is the unit of side `side`, with each of its
    /// identifiers the one that a registry holding `names` gives to the
    /// variable's name.
    pub open spec fn named(self, side: Seq<char>, names: Seq<Seq<char>>) -> bool {
        &&& buttons_named(self.ccd.keys, side, cursor_control_keys(), names)
        &&& buttons_named(self.kbd.keys, side, keyboard_keys(), names)
        &&& names_resolve(names, can_bus_name(side, "1"@), self.output_can_bus_1)
        &&& names_resolve(names, can_bus_name(side, "2"@), self.output_can_bus_2)
    }
}

impl View for KeyboardAndCursorControlUnit {
    type V = KeyboardAndCursorControlUnitView;

    closed spec fn view(&self) -> KeyboardAndCursorControlUnitView {
        KeyboardAndCursorControlUnitView {
            ccd: self.ccd@,
            kbd: self.kbd@,
            output_can_bus_1: self.output_can_bus_1,
            output_can_bus_2: self.output_can_bus_2,
        }
    }
}

/// The two output buses of a side have different names.
pub proof fn lemma_can_bus_names_differ(side: Seq<char>)
    ensures
        can_bus_name(side, "1"@) != can_bus_name(side, "2"@),
{
    lemma_unit_keys_plain();
    let buses = unit_buses();
    assert(buses[0] == "1"@ && buses[1] == "2"@);
    lemma_can_bus_name_is_button_name(side, "1"@);
    lemma_can_bus_name_is_button_name(side, "2"@);
    if can_bus_name(side, "1"@) == can_bus_name(side, "2"@) {
        lemma_button_name_injective("CAN_BUS_"@ + side, "1"@, "CAN_BUS_"@ + side, "2"@);
    }
}

impl KeyboardAndCursorControlUnit {
    /// The unit of side `side`. The keyboard is powered from
    /// `primary_source_kbd` or else `fallback_source_kbd`, the cursor control
    /// device from `primary_source_ccd` or else `fallback_source_ccd`. The
    /// unit's variables are registered in the order of `unit_names`, and no
    /// key is down.
    pub fn new(
        context: &mut InitContext,
        side: &str,
        primary_source_kbd: ElectricalBusType,
        fallback_source_kbd: ElectricalBusType,
        primary_source_ccd: ElectricalBusType,
        fallback_source_ccd: ElectricalBusType,
    ) -> (unit: KeyboardAndCursorControlUnit)
        requires
            old(context).wf(),
        ensures
            final(context).wf(),
            final(context)@ == register_all(old(context)@, unit_names(side@)),
            unit@.wf(),
            unit@.named(side@, final(context)@),
            buttons_released(unit@.ccd.keys),
            buttons_released(unit@.kbd.keys),
            unit@.kbd.primary_source == primary_source_kbd,
            unit@.kbd.fallback_source == fallback_source_kbd,
            unit@.ccd.primary_source == primary_source_ccd,
            unit@.ccd.fallback_source == fallback_source_ccd,
    {
        let ccd = CursorControlDevice::new(context, side, primary_source_ccd, fallback_source_ccd);
        let ghost after_ccd = context@;
        let kbd = Keyboard::new(context, side, primary_source_kbd, fallback_source_kbd);
        let ghost after_kbd = context@;
        let output_can_bus_1 = context.get_identifier(can_bus_variable_name(side, "1"));
        let ghost after_first = context@;
        let output_can_bus_2 = context.get_identifier(can_bus_variable_name(side, "2"));
        proof {
            let ccd_names = key_names(side@, cursor_control_keys());
            let kbd_names = key_names(side@, keyboard_keys());
            let first = can_bus_name(side@, "1"@);
            let second = can_bus_name(side@, "2"@);
            let bus_names = seq![first, second];
            lemma_register_all_one(after_kbd, first);
            lemma_register_all_one(after_first, second);
            lemma_register_all_joined(after_kbd, seq![first], seq![second]);
            assert(seq![first] + seq![second] =~= bus_names);
            lemma_register_all_joined(old(context)@, ccd_names, kbd_names);
            lemma_register_all_joined(old(context)@, ccd_names + kbd_names, bus_names);
            assert forall|i: int| 0 <= i < cursor_control_keys().len() implies names_resolve(
                context@,
                button_name(side@, cursor_control_keys()[i]),
                #[trigger] ccd@.keys[i].id,
            ) by {
                lemma_register_all_keeps(
                    after_ccd,
                    kbd_names + bus_names,
                    button_name(side@, cursor_control_keys()[i]),
                    ccd@.keys[i].id,
                );
                lemma_register_all_joined(after_ccd, kbd_names, bus_names);
            }
            assert forall|i: int| 0 <= i < keyboard_keys().len() implies names_resolve(
                context@,
                button_name(side@, keyboard_keys()[i]),
                #[trigger] kbd@.keys[i].id,
            ) by {
                lemma_register_all_keeps(
                    after_kbd,
                    bus_names,
                    button_name(side@, keyboard_keys()[i]),
                    kbd@.keys[i].id,
                );
            }
            lemma_register_all_keeps(after_first, seq![second], first, output_can_bus_1);
            lemma_can_bus_names_differ(side@);
            lemma_identifier_tells_name(context@, first, output_can_bus_1, second, output_can_bus_2);
        }
        KeyboardAndCursorControlUnit { ccd, kbd, output_can_bus_1, output_can_bus_2 }
    }

    /// The cursor control device of the unit.
    pub fn cursor_control_device(&self) -> (device: &CursorControlDevice)
        ensures
            device@ == self@.ccd,
    {
        &self.ccd
    }

    /// The keyboard of the unit.
    pub fn keyboard(&self) -> (keyboard: &Keyboard)
        ensures
            keyboard@ == self@.kbd,
    {
        &self.kbd
    }

    /// The variable of the first output bus.
    pub fn output_can_bus_1(&self) -> (id: VariableIdentifier)
        ensures
            id == self@.output_can_bus_1,
    {
        self.output_can_bus_1
    }

    /// The variable of the second output bus.
    pub fn output_can_bus_2(&self) -> (id: VariableIdentifier)
        ensures
            id == self@.output_can_bus_2,
    {
        self.output_can_bus_2
    }
}

impl SimulationElement for KeyboardAndCursorControlUnit {
    /// The unit owns the variables of its devices and its two output buses.
    open spec fn identifiers(element: KeyboardAndCursorControlUnitView) -> Seq<VariableIdentifier> {
        element.identifiers()
    }

    open spec fn after_read(
        element: KeyboardAndCursorControlUnitView,
        store: StoreState,
    ) -> KeyboardAndCursorControlUnitView {
        element
    }

    open spec fn after_write(
        element: KeyboardAndCursorControlUnitView,
        store: StoreState,
    ) -> StoreState {
        store
    }

    /// The unit itself reads nothing: its output buses are for others to use.
    fn read<S: VariableStore>(&mut self, store: &S) {
    }

    /// The unit itself writes nothing: its output buses are for others to use.
    fn write<S: VariableStore>(&self, store: &mut S)
        ensures
            *final(store) == *old(store),
    {
    }
}

impl Visitable for KeyboardAndCursorControlUnit {
    /// The tree of the cursor control device, then the tree of the keyboard,
    /// then the unit itself.
    open spec fn traversal(element: KeyboardAndCursorControlUnitView) -> Trace {
        (CursorControlDevice::traversal(element.ccd) + Keyboard::traversal(element.kbd)).push(
            KeyboardAndCursorControlUnit::identifiers(element),
        )
    }

    open spec fn traversed(
        element: KeyboardAndCursorControlUnitView,
        phase: Phase,
        store: StoreState,
    ) -> (StoreState, KeyboardAndCursorControlUnitView) {
        let (store, ccd) = CursorControlDevice::traversed(element.ccd, phase, store);
        let (store, kbd) = Keyboard::traversed(element.kbd, phase, store);
        visit_outcome::<KeyboardAndCursorControlUnit>(
            phase,
            store,
            KeyboardAndCursorControlUnitView { ccd, kbd, ..element },
        )
    }

    /// The visitor goes through the cursor control device, then through the
    /// keyboard, and then visits the unit itself, whatever state the devices
    /// are in.
    fn accept<W: SimulationElementVisitor>(&mut self, visitor: &mut W)
        ensures
            final(self)@.output_can_bus_1 == old(self)@.output_can_bus_1,
            final(self)@.output_can_bus_2 == old(self)@.output_can_bus_2,
    {
        self.ccd.accept(visitor);
        self.kbd.accept(visitor);
        let ghost seen = visitor.trace();
        assert(self@.identifiers() =~= old(self)@.identifiers());
        visitor.visit(self);
        assert(seen.push(KeyboardAndCursorControlUnit::identifiers(self@)) =~= old(visitor).trace()
            + KeyboardAndCursorControlUnit::traversal(old(self)@));
    }
}

/// The order of a pass, node by node: the buttons of the cursor control
/// device, the device, the buttons of the keyboard, the keyboard, the unit.
/// Every node of the tree stands in it once, given by the variables it owns.
pub proof fn lemma_unit_traversal(unit: KeyboardAndCursorControlUnitView)
    ensures
        KeyboardAndCursorControlUnit::traversal(unit) == buttons_traversal(unit.ccd.keys)
            + seq![button_identifiers(unit.ccd.keys)] + buttons_traversal(unit.kbd.keys)
            + seq![button_identifiers(unit.kbd.keys)] + seq![unit.identifiers()],
        KeyboardAndCursorControlUnit::traversal(unit).len() == unit.keys().len() + 3,
{
    assert(KeyboardAndCursorControlUnit::traversal(unit) =~= buttons_traversal(unit.ccd.keys)
        + seq![button_identifiers(unit.ccd.keys)] + buttons_traversal(unit.kbd.keys)
        + seq![button_identifiers(unit.kbd.keys)] + seq![unit.identifiers()]);
}

/// What a tick does. Every button takes the store's value for its variable
/// as its sample, and nothing else about the unit changes. Then each button
/// that is pressed writes once, in the order of the pass. After that the
/// store gives zero for each variable of a pressed button, and for every
/// other variable what it gave before; for the variable of no button does it
/// still give a value above zero.
pub proof fn lemma_tick_of_unit(unit: KeyboardAndCursorControlUnitView, store: StoreState)
    ensures
        ({
            let (after, written) = unit.tick(store);
            &&& after == KeyboardAndCursorControlUnitView {
                ccd: CursorControlDeviceView {
                    keys: buttons_read(unit.ccd.keys, store),
                    ..unit.ccd
                },
                kbd: KeyboardView { keys: buttons_read(unit.kbd.keys, store), ..unit.kbd },
                ..unit
            }
            &&& after.keys() == buttons_read(unit.keys(), store)
            &&& written == buttons_written(after.keys(), store)
            &&& written.writes == store.writes + row_writes(after.keys())
            &&& forall|id: VariableIdentifier|
                #[trigger] written.value(id) == (if row_presses(after.keys(), id) {
                    Binary64::zero()
                } else {
                    store.value(id)
                })
            &&& forall|i: int|
                0 <= i < after.keys().len() ==> !written.value(
                    (#[trigger] after.keys()[i]).id,
                ).is_positive()
        }),
{
    let (after, written) = unit.tick(store);
    assert(after.keys() =~= buttons_read(unit.keys(), store));
    lemma_buttons_written_joined(after.ccd.keys, after.kbd.keys, store);
    lemma_buttons_written_writes(after.keys(), store);
    assert forall|id: VariableIdentifier| #[trigger]
        written.value(id) == (if row_presses(after.keys(), id) {
            Binary64::zero()
        } else {
            store.value(id)
        }) by {
        lemma_buttons_written_at(after.keys(), store, id);
    }
    assert forall|i: int| 0 <= i < after.keys().len() implies !written.value(
        (#[trigger] after.keys()[i]).id,
    ).is_positive() by {
        let key = after.keys()[i];
        assert(key == unit.keys()[i].read(store));
    }
}

/// Where the store gives a value above zero for the variable of no button,
/// a tick leaves every button released and does not write to the store.
pub proof fn lemma_unit_idle_tick(unit: KeyboardAndCursorControlUnitView, store: StoreState)
    requires
        forall|i: int|
            0 <= i < unit.keys().len() ==> !store.value((#[trigger] unit.keys()[i]).id).is_positive(),
    ensures
        forall|i: int|
            0 <= i < unit.tick(store).0.keys().len() ==> !(#[trigger] unit.tick(store).0.keys()[i]).pressed(),
        unit.tick(store).1 == store,
{
    let (after, written) = unit.tick(store);
    lemma_tick_of_unit(unit, store);
    assert forall|i: int| 0 <= i < after.keys().len() implies !(#[trigger] after.keys()[i]).pressed() by {
        assert(after.keys()[i] == unit.keys()[i].read(store));
    }
    lemma_buttons_written_idle(after.keys(), store);
}

/// A flag that the outside has set is seen for exactly one tick, by the
/// whole unit. In the tick that follows a tick, with nobody else writing to
/// the store in between, no button of the unit is pressed and the store is
/// not written to.
pub proof fn lemma_unit_released_after_tick(
    unit: KeyboardAndCursorControlUnitView,
    store: StoreState,
)
    ensures
        ({
            let (first, written) = unit.tick(store);
            let (second, rewritten) = first.tick(written);
            &&& forall|i: int| 0 <= i < second.keys().len() ==> !(#[trigger] second.keys()[i]).pressed()
            &&& rewritten == written
        }),
{
    let (first, written) = unit.tick(store);
    let (second, rewritten) = first.tick(written);
    lemma_tick_of_unit(unit, store);
    lemma_tick_of_unit(first, written);
    assert forall|i: int| 0 <= i < second.keys().len() implies !(#[trigger] second.keys()[i]).pressed() by {
        assert(second.keys()[i] == first.keys()[i].read(written));
    }
    lemma_buttons_written_idle(second.keys(), written);
}

/// Each name of a unit is a key name: that of a key on the unit's side, or
/// that of an output bus on the side `CAN_BUS_<side>`.
proof fn lemma_unit_name_parts(side: Seq<char>, i: int)
    requires
        0 <= i < 32,
    ensures
        unit_names(side).len() == 32,
        unit_keys().len() == 30,
        unit_buses().len() == 2,
        i < 30 ==> unit_names(side)[i] == button_name(side, unit_keys()[i]),
        i >= 30 ==> unit_names(side)[i] == button_name("CAN_BUS_"@ + side, unit_buses()[i - 30]),
{
    lemma_can_bus_name_is_button_name(side, "1"@);
    lemma_can_bus_name_is_button_name(side, "2"@);
}

/// Two names, each the name of a unit, are equal only where they stand at
/// the same place in the rows of their units and the units have the same side.
proof fn lemma_unit_names_tell_apart(side_a: Seq<char>, i: int, side_b: Seq<char>, j: int)
    requires
        0 <= i < 32,
        0 <= j < 32,
        unit_names(side_a)[i] == unit_names(side_b)[j],
    ensures
        i == j,
        side_a == side_b,
{
    lemma_unit_keys_plain();
    lemma_unit_name_parts(side_a, i);
    lemma_unit_name_parts(side_b, j);
    let keys = unit_keys();
    let buses = unit_buses();
    let bus_side_a = "CAN_BUS_"@ + side_a;
    let bus_side_b = "CAN_BUS_"@ + side_b;
    if i < 30 && j < 30 {
        lemma_button_name_injective(side_a, keys[i], side_b, keys[j]);
    } else if i < 30 {
        lemma_button_name_injective(side_a, keys[i], bus_side_b, buses[j - 30]);
    } else if j < 30 {
        lemma_button_name_injective(bus_side_a, buses[i - 30], side_b, keys[j]);
    } else {
        lemma_button_name_injective(bus_side_a, buses[i - 30], bus_side_b, buses[j - 30]);
        assert(side_a =~= bus_side_a.subrange("CAN_BUS_"@.len() as int, bus_side_a.len() as int));
        assert(side_b =~= bus_side_b.subrange("CAN_BUS_"@.len() as int, bus_side_b.len() as int));
    }
}

/// The names of a unit are all different.
pub proof fn lemma_unit_names_distinct(side: Seq<char>)
    ensures
        distinct_names(unit_names(side)),
{
    lemma_unit_name_parts(side, 0);
    assert forall|i: int, j: int| 0 <= i < j < unit_names(side).len() implies unit_names(side)[i]
        != unit_names(side)[j] by {
        if unit_names(side)[i] == unit_names(side)[j] {
            lemma_unit_names_tell_apart(side, i, side, j);
        }
    }
}

/// Units of different sides have no name in common.
pub proof fn lemma_unit_names_disjoint(side_a: Seq<char>, side_b: Seq<char>)
    requires
        side_a != side_b,
    ensures
        forall|i: int, j: int|
            0 <= i < unit_names(side_a).len() && 0 <= j < unit_names(side_b).len() ==> unit_names(
                side_a,
            )[i] != unit_names(side_b)[j],
{
    lemma_unit_name_parts(side_a, 0);
    lemma_unit_name_parts(side_b, 0);
    assert forall|i: int, j: int|
        0 <= i < unit_names(side_a).len() && 0 <= j < unit_names(side_b).len() implies unit_names(
        side_a,
    )[i] != unit_names(side_b)[j] by {
        if unit_names(side_a)[i] == unit_names(side_b)[j] {
            lemma_unit_names_tell_apart(side_a, i, side_b, j);
        }
    }
}

/// The identifiers of a named unit stand for the names of its side, one for
/// one and in the same order.
pub proof fn lemma_unit_identifiers_named(
    unit: KeyboardAndCursorControlUnitView,
    side: Seq<char>,
    names: Seq<Seq<char>>,
)
    requires
        unit.named(side, names),
    ensures
        unit.identifiers().len() == unit_names(side).len(),
        forall|i: int|
            0 <= i < unit.identifiers().len() ==> names_resolve(
                names,
                unit_names(side)[i],
                #[trigger] unit.identifiers()[i],
            ),
{
    lemma_unit_name_parts(side, 0);
    assert forall|i: int| 0 <= i < unit.identifiers().len() implies names_resolve(
        names,
        unit_names(side)[i],
        #[trigger] unit.identifiers()[i],
    ) by {
        if i < 4 {
            assert(unit.identifiers()[i] == unit.ccd.keys[i].id);
        } else if i < 30 {
            assert(unit.identifiers()[i] == unit.kbd.keys[i - 4].id);
        }
    }
}

/// On a registry that knows none of its names a unit gets the next
/// identifiers, in the order of its names.
pub proof fn lemma_unit_identifiers_fresh(
    unit: KeyboardAndCursorControlUnitView,
    side: Seq<char>,
    names: Seq<Seq<char>>,
)
    requires
        distinct_names(names),
        forall|i: int|
            0 <= i < unit_names(side).len() ==> !names.contains(#[trigger] unit_names(side)[i]),
        unit.named(side, register_all(names, unit_names(side))),
    ensures
        register_all(names, unit_names(side)) == names + unit_names(side),
        forall|i: int|
            0 <= i < unit.identifiers().len() ==> (#[trigger] unit.identifiers()[i]).index
                == names.len() + i,
{
    let later = names + unit_names(side);
    lemma_unit_names_distinct(side);
    lemma_register_all_fresh(names, unit_names(side));
    lemma_unit_identifiers_named(unit, side, later);
    assert forall|i: int| 0 <= i < unit.identifiers().len() implies (#[trigger] unit.identifiers()[i]).index
        == names.len() + i by {
        let at = unit.identifiers()[i].index as int;
        assert(later[names.len() + i] == unit_names(side)[i]);
        if at < names.len() {
            assert(names[at] == unit_names(side)[i]);
            assert(names.contains(unit_names(side)[i]));
        } else if at != names.len() + i {
            assert(later[at] == unit_names(side)[at - names.len()]);
        }
    }
}

/// A unit keeps its names when more names are registered.
pub proof fn lemma_unit_named_kept(
    unit: KeyboardAndCursorControlUnitView,
    side: Seq<char>,
    names: Seq<Seq<char>>,
    new_names: Seq<Seq<char>>,
)
    requires
        unit.named(side, names),
    ensures
        unit.named(side, register_all(names, new_names)),
{
    let later = register_all(names, new_names);
    assert forall|i: int| 0 <= i < cursor_control_keys().len() implies names_resolve(
        later,
        button_name(side, cursor_control_keys()[i]),
        #[trigger] unit.ccd.keys[i].id,
    ) by {
        lemma_register_all_keeps(
            names,
            new_names,
            button_name(side, cursor_control_keys()[i]),
            unit.ccd.keys[i].id,
        );
    }
    assert forall|i: int| 0 <= i < keyboard_keys().len() implies names_resolve(
        later,
        button_name(side, keyboard_keys()[i]),
        #[trigger] unit.kbd.keys[i].id,
    ) by {
        lemma_register_all_keeps(
            names,
            new_names,
            button_name(side, keyboard_keys()[i]),
            unit.kbd.keys[i].id,
        );
    }
    lemma_register_all_keeps(names, new_names, can_bus_name(side, "1"@), unit.output_can_bus_1);
    lemma_register_all_keeps(names, new_names, can_bus_name(side, "2"@), unit.output_can_bus_2);
}

/// No two variables of a unit have the same identifier.
pub proof fn lemma_unit_identifiers_distinct(
    unit: KeyboardAndCursorControlUnitView,
    side: Seq<char>,
    names: Seq<Seq<char>>,
)
    requires
        distinct_names(names),
        unit.named(side, names),
    ensures
        forall|i: int, j: int|
            0 <= i < j < unit.identifiers().len() ==> unit.identifiers()[i] != unit.identifiers()[j],
{
    lemma_unit_identifiers_named(unit, side, names);
    lemma_unit_names_distinct(side);
    assert forall|i: int, j: int| 0 <= i < j < unit.identifiers().len() implies unit.identifiers()[i]
        != unit.identifiers()[j] by {
        lemma_identifier_tells_name(
            names,
            unit_names(side)[i],
            unit.identifiers()[i],
            unit_names(side)[j],
            unit.identifiers()[j],
        );
    }
}

/// Units of different sides, named by one registry, have no identifier in
/// common.
pub proof fn lemma_units_share_no_identifier(
    unit_a: KeyboardAndCursorControlUnitView,
    side_a: Seq<char>,
    unit_b: KeyboardAndCursorControlUnitView,
    side_b: Seq<char>,
    names: Seq<Seq<char>>,
)
    requires
        distinct_names(names),
        unit_a.named(side_a, names),
        unit_b.named(side_b, names),
        side_a != side_b,
    ensures
        forall|i: int, j: int|
            0 <= i < unit_a.identifiers().len() && 0 <= j < unit_b.identifiers().len()
                ==> unit_a.identifiers()[i] != unit_b.identifiers()[j],
{
    lemma_unit_identifiers_named(unit_a, side_a, names);
    lemma_unit_identifiers_named(unit_b, side_b, names);
    lemma_unit_names_disjoint(side_a, side_b);
    assert forall|i: int, j: int|
        0 <= i < unit_a.identifiers().len() && 0 <= j < unit_b.identifiers().len()
            implies unit_a.identifiers()[i] != unit_b.identifiers()[j] by {
        lemma_identifier_tells_name(
            names,
            unit_names(side_a)[i],
            unit_a.identifiers()[i],
            unit_names(side_b)[j],
            unit_b.identifiers()[j],
        );
    }
}

} // verus!
