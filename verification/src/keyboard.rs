//! The keyboard of the unit.

use vstd::prelude::*;
use crate::button::{Button, ButtonView};
use crate::electrical::ElectricalBusType;
use crate::keys::{
    accept_buttons, button_identifiers, button_views, buttons_named, buttons_released, buttons_traversal,
    buttons_traversed, key_names, register_buttons,
};
use crate::layout::{keyboard_keys, keyboard_layout};
use crate::simulation::{Phase, SimulationElement, SimulationElementVisitor, Trace, Visitable};
use crate::store::{StoreState, VariableStore};
use crate::variable::{register_all, InitContext, VariableIdentifier};

verus! {

/// The keyboard: one button for each of its keys, and the two buses that can
/// power it.
pub struct Keyboard {
    keys: Vec<Button>,
    primary_source: ElectricalBusType,
    fallback_source: ElectricalBusType,
}

/// What a keyboard is to its contracts.
pub struct KeyboardView {
    pub keys: Seq<ButtonView>,
    pub primary_source: ElectricalBusType,
    pub fallback_source: ElectricalBusType,
}

impl View for Keyboard {
    type V = KeyboardView;

    closed spec fn view(&self) -> KeyboardView {
        KeyboardView {
            keys: button_views(self.keys@),
            primary_source: self.primary_source,
            fallback_source: self.fallback_source,
        }
    }
}

impl Keyboard {
    /// The keyboard of the unit of side `side`, powered from `primary_source`
    /// or else from `fallback_source`. The variables of its keys are
    /// registered in the order of the keys, and no key is down.
    pub fn new(
        context: &mut InitContext,
        side: &str,
        primary_source: ElectricalBusType,
        fallback_source: ElectricalBusType,
    ) -> (keyboard: Keyboard)
        requires
            old(context).wf(),
        ensures
            final(context).wf(),
            final(context)@ == register_all(old(context)@, key_names(side@, keyboard_keys())),
            buttons_named(keyboard@.keys, side@, keyboard_keys(), final(context)@),
            buttons_released(keyboard@.keys),
            keyboard@.primary_source == primary_source,
            keyboard@.fallback_source == fallback_source,
    {
        let layout = keyboard_layout();
        Keyboard { keys: register_buttons(context, side, &layout), primary_source, fallback_source }
    }

    /// The number of keys.
    pub fn key_count(&self) -> (count: usize)
        ensures
            count == self@.keys.len(),
    {
        self.keys.len()
    }

    /// The button of the key at `index`, counted from zero, if there is one.
    pub fn key(&self, index: usize) -> (button: Option<&Button>)
        ensures
            index < self@.keys.len() ==> button.is_some() && button.unwrap()@ == self@.keys[index as int],
            index >= self@.keys.len() ==> button.is_none(),
    {
        if index < self.keys.len() {
            Some(&self.keys[index])
        } else {
            None
        }
    }

    /// The bus that powers the keyboard first.
    pub fn primary_source(&self) -> (source: ElectricalBusType)
        ensures
            source == self@.primary_source,
    {
        self.primary_source
    }

    /// The bus that powers the keyboard where the first one cannot.
    pub fn fallback_source(&self) -> (source: ElectricalBusType)
        ensures
            source == self@.fallback_source,
    {
        self.fallback_source
    }
}

impl SimulationElement for Keyboard {
    /// The keyboard owns the variables of its buttons.
    open spec fn identifiers(element: KeyboardView) -> Seq<VariableIdentifier> {
        button_identifiers(element.keys)
    }

    open spec fn after_read(element: KeyboardView, store: StoreState) -> KeyboardView {
        element
    }

    open spec fn after_write(element: KeyboardView, store: StoreState) -> StoreState {
        store
    }

    /// The node itself reads nothing.
    fn read<S: VariableStore>(&mut self, store: &S) {
    }

    /// The node itself writes nothing.
    fn write<S: VariableStore>(&self, store: &mut S)
        ensures
            *final(store) == *old(store),
    {
    }
}

impl Visitable for Keyboard {
    open spec fn traversal(element: KeyboardView) -> Trace {
        buttons_traversal(element.keys).push(Keyboard::identifiers(element))
    }

    open spec fn traversed(element: KeyboardView, phase: Phase, store: StoreState) -> (
        StoreState,
        KeyboardView,
    ) {
        let (store, keys) = buttons_traversed(element.keys, phase, store);
        (store, KeyboardView { keys, ..element })
    }

    /// The visitor goes through the buttons, first key to last, and then
    /// visits the keyboard itself.
    fn accept<W: SimulationElementVisitor>(&mut self, visitor: &mut W) {
        accept_buttons(&mut self.keys, visitor);
        let ghost seen = visitor.trace();
        assert(button_identifiers(self@.keys) =~= button_identifiers(old(self)@.keys));
        visitor.visit(self);
        assert(seen.push(Keyboard::identifiers(self@)) =~= old(visitor).trace() + Keyboard::traversal(
            old(self)@,
        ));
    }
}

} // verus!
