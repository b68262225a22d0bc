//! A key of the unit: a momentary input that clears itself.
//!
//! The outside sets a key's variable above zero when the key goes down and
//! never resets it. The button does: in the tick in which it has read a value
//! above zero it writes zero back. A flag that was set once is therefore seen
//! as pressed in one tick and in no later one, until the outside sets it again.

use vstd::prelude::*;
use crate::binary64::Binary64;
use crate::names::{button_name, button_variable_name};
use crate::simulation::{
    visit_outcome, Phase, SimulationElement, SimulationElementVisitor, Trace, Visitable,
};
use crate::store::{StoreState, VariableStore};
use crate::variable::{names_resolve, register, InitContext, VariableIdentifier};

verus! {

/// A key of the unit.
pub struct Button {
    button_id: VariableIdentifier,
    button_value: Binary64,
}

/// What a button is to its contracts: its variable and the sample it took at
/// its last read.
pub struct ButtonView {
    pub id: VariableIdentifier,
    pub value: Binary64,
}

impl ButtonView {
    /// Whether the sample says that the key is down.
    pub open spec fn pressed(self) -> bool {
        self.value.is_positive()
    }

    /// The button after a read from a store in the state `store`.
    pub open spec fn read(self, store: StoreState) -> ButtonView {
        ButtonView { id: self.id, value: store.value(self.id) }
    }

    /// The state of a store that was in the state `store` after the button
    /// has written: after one write of zero to the button's variable where
    /// the sample is above zero, and else the state it was in.
    pub open spec fn write(self, store: StoreState) -> StoreState {
        if self.pressed() {
            store.write(self.id, Binary64::zero())
        } else {
            store
        }
    }

    /// One tick of the button alone: it reads, then it writes. The result is
    /// the button and the store after the tick.
    pub open spec fn tick(self, store: StoreState) -> (ButtonView, StoreState) {
        let button = self.read(store);
        (button, button.write(store))
    }

    /// `count` ticks in a row, during which nobody else writes to the store.
    pub open spec fn ticks(self, store: StoreState, count: nat) -> (ButtonView, StoreState)
        decreases count,
    {
        if count == 0 {
            (self, store)
        } else {
            let (button, store) = self.ticks(store, (count - 1) as nat);
            button.tick(store)
        }
    }
}

/// A flag that the outside has set is seen for exactly one tick. Where the
/// store holds a value above zero for the button's variable and nobody else
/// writes to the store, the button is pressed after the first tick and after
/// no later one. In all these ticks the store is written to once, in the
/// first: from then on it gives zero for the button's variable.
pub proof fn lemma_pressed_for_one_tick(button: ButtonView, store: StoreState, count: nat)
    requires
        store.value(button.id).is_positive(),
        count >= 1,
    ensures
        button.ticks(store, count).0.pressed() <==> count == 1,
        button.ticks(store, count).1 == store.write(button.id, Binary64::zero()),
        button.ticks(store, count).1.value(button.id) == Binary64::zero(),
    decreases count,
{
    reveal_with_fuel(ButtonView::ticks, 2);
    if count > 1 {
        lemma_pressed_for_one_tick(button, store, (count - 1) as nat);
    }
}

/// A flag that is not set stays so. Where the store holds nothing above zero
/// for the button's variable and nobody else writes to the store, the button
/// is pressed after no tick, and the store is never written to.
pub proof fn lemma_released_stays_released(button: ButtonView, store: StoreState, count: nat)
    requires
        !store.value(button.id).is_positive(),
        count >= 1,
    ensures
        !button.ticks(store, count).0.pressed(),
        button.ticks(store, count).1 == store,
    decreases count,
{
    reveal_with_fuel(ButtonView::ticks, 2);
    if count > 1 {
        lemma_released_stays_released(button, store, (count - 1) as nat);
    }
}

impl View for Button {
    type V = ButtonView;

    closed spec fn view(&self) -> ButtonView {
        ButtonView { id: self.button_id, value: self.button_value }
    }
}

impl Button {
    /// The button of the key `key` on the unit of side `side`. Its variable is
    /// registered under the key's name, and its sample is zero.
    pub fn new(context: &mut InitContext, side: &str, key: &str) -> (button: Button)
        requires
            old(context).wf(),
        ensures
            final(context).wf(),
            final(context)@ == register(old(context)@, button_name(side@, key@)),
            names_resolve(final(context)@, button_name(side@, key@), button@.id),
            button@.value == Binary64::zero(),
    {
        Button {
            button_id: context.get_identifier(button_variable_name(side, key)),
            button_value: Binary64::zero(),
        }
    }

    /// Whether the key was down at the last read.
    pub fn button_pressed(&self) -> (pressed: bool)
        ensures
            pressed == self@.pressed(),
    {
        self.button_value.is_positive()
    }

    /// The variable of the key.
    pub fn identifier(&self) -> (id: VariableIdentifier)
        ensures
            id == self@.id,
    {
        self.button_id
    }
}

impl SimulationElement for Button {
    open spec fn identifiers(element: ButtonView) -> Seq<VariableIdentifier> {
        seq![element.id]
    }

    open spec fn after_read(element: ButtonView, store: StoreState) -> ButtonView {
        element.read(store)
    }

    open spec fn after_write(element: ButtonView, store: StoreState) -> StoreState {
        element.write(store)
    }

    /// Takes the sample for this tick. Nothing but the sample changes.
    fn read<S: VariableStore>(&mut self, store: &S) {
        self.button_value = store.read(&self.button_id);
    }

    /// Resets the key's variable where the sample is above zero. Where it is
    /// not, the store is not touched at all.
    fn write<S: VariableStore>(&self, store: &mut S)
        ensures
            !self@.pressed() ==> *final(store) == *old(store),
    {
        if self.button_value.is_positive() {
            store.write(&self.button_id, Binary64::zero());
        }
    }
}

impl Visitable for Button {
    open spec fn traversal(element: ButtonView) -> Trace {
        seq![Button::identifiers(element)]
    }

    open spec fn traversed(element: ButtonView, phase: Phase, store: StoreState) -> (
        StoreState,
        ButtonView,
    ) {
        visit_outcome::<Button>(phase, store, element)
    }

    /// A button has nothing below it: the visitor visits the button itself.
    fn accept<W: SimulationElementVisitor>(&mut self, visitor: &mut W) {
        visitor.visit(self);
        assert(old(visitor).trace().push(Button::identifiers(old(self)@)) =~= old(visitor).trace()
            + Button::traversal(old(self)@));
    }
}

} // verus!
