//! Rows of buttons, as the keyboard and the cursor control device own them.

use vstd::prelude::*;
use crate::binary64::Binary64;
use crate::button::{Button, ButtonView};
use crate::layout::key_texts;
use crate::names::button_name;
use crate::simulation::{Phase, SimulationElementVisitor, Trace, Visitable};
use crate::store::StoreState;
use crate::variable::{names_resolve, register_all, InitContext, VariableIdentifier};

verus! {

/// The views of the buttons of a row.
pub open spec fn button_views(buttons: Seq<Button>) -> Seq<ButtonView> {
    Seq::new(buttons.len(), |i: int| buttons[i]@)
}

/// The variables of the buttons of a row, in the order of the row.
pub open spec fn button_identifiers(buttons: Seq<ButtonView>) -> Seq<VariableIdentifier> {
    Seq::new(buttons.len(), |i: int| buttons[i].id)
}

/// The trace that a pass over the row leaves: one node for each button, in
/// the order of the row.
pub open spec fn buttons_traversal(buttons: Seq<ButtonView>) -> Trace {
    Seq::new(buttons.len(), |i: int| seq![buttons[i].id])
}

/// The row after each of its buttons has read from a store in the state
/// `store`.
pub open spec fn buttons_read(buttons: Seq<ButtonView>, store: StoreState) -> Seq<ButtonView> {
    Seq::new(buttons.len(), |i: int| buttons[i].read(store))
}

/// The state of a store that was in the state `store` after the buttons of
/// the row have written to it, one after the other.
pub open spec fn buttons_written(buttons: Seq<ButtonView>, store: StoreState) -> StoreState
    decreases buttons.len(),
{
    if buttons.len() == 0 {
        store
    } else {
        buttons.last().write(buttons_written(buttons.drop_last(), store))
    }
}

/// The variables of the buttons of the row that hold a sample above zero, in
/// the order of the row.
pub open spec fn row_writes(buttons: Seq<ButtonView>) -> Seq<VariableIdentifier>
    decreases buttons.len(),
{
    if buttons.len() == 0 {
        Seq::empty()
    } else if buttons.last().pressed() {
        row_writes(buttons.drop_last()).push(buttons.last().id)
    } else {
        row_writes(buttons.drop_last())
    }
}

/// Whether a button of the row that owns the variable `id` holds a sample
/// above zero.
pub open spec fn row_presses(buttons: Seq<ButtonView>, id: VariableIdentifier) -> bool {
    exists|i: int| 0 <= i < buttons.len() && (#[trigger] buttons[i]).id == id && buttons[i].pressed()
}

/// What a whole pass in `phase` makes of the store and of the row.
pub open spec fn buttons_traversed(buttons: Seq<ButtonView>, phase: Phase, store: StoreState) -> (
    StoreState,
    Seq<ButtonView>,
) {
    match phase {
        Phase::Read => (store, buttons_read(buttons, store)),
        Phase::Write => (buttons_written(buttons, store), buttons),
    }
}

/// The names of the variables of the keys `keys` on the unit of side `side`.
pub open spec fn key_names(side: Seq<char>, keys: Seq<Seq<char>>) -> Seq<Seq<char>> {
    Seq::new(keys.len(), |i: int| button_name(side, keys[i]))
}

/// Whether `buttons` are the buttons of the keys `keys` on the unit of side
/// `side`, each with the identifier that a registry holding `names` gives to
/// its name.
pub open spec fn buttons_named(
    buttons: Seq<ButtonView>,
    side: Seq<char>,
    keys: Seq<Seq<char>>,
    names: Seq<Seq<char>>,
) -> bool {
    &&& buttons.len() == keys.len()
    &&& forall|i: int|
        0 <= i < keys.len() ==> names_resolve(names, button_name(side, keys[i]), #[trigger] buttons[i].id)
}

/// Whether every button of the row holds a sample of zero.
pub open spec fn buttons_released(buttons: Seq<ButtonView>) -> bool {
    forall|i: int| 0 <= i < buttons.len() ==> (#[trigger] buttons[i]).value == Binary64::zero()
}

/// The buttons of the keys `keys` on the unit of side `side`, in the order of
/// the keys. Their variables are registered in that order.
pub fn register_buttons(context: &mut InitContext, side: &str, keys: &Vec<&'static str>) -> (buttons:
    Vec<Button>)
    requires
        old(context).wf(),
    ensures
        final(context).wf(),
        final(context)@ == register_all(old(context)@, key_names(side@, key_texts(keys@))),
        buttons_named(button_views(buttons@), side@, key_texts(keys@), final(context)@),
        buttons_released(button_views(buttons@)),
{
    let ghost texts = key_texts(keys@);
    let mut buttons: Vec<Button> = Vec::new();
    let mut i: usize = 0;
    while i < keys.len()
        invariant
            i <= keys@.len(),
            texts == key_texts(keys@),
            context.wf(),
            context@ == register_all(old(context)@, key_names(side@, texts.take(i as int))),
            buttons_named(button_views(buttons@), side@, texts.take(i as int), context@),
            buttons_released(button_views(buttons@)),
        decreases keys@.len() - i,
    {
        let ghost names = context@;
        let ghost row = button_views(buttons@);
        let button = Button::new(context, side, keys[i]);
        buttons.push(button);
        proof {
            let upto = texts.take(i as int);
            let next = texts.take(i as int + 1);
            assert(key_names(side@, next).drop_last() =~= key_names(side@, upto));
            assert(key_names(side@, next).last() == button_name(side@, keys@[i as int]@));
            assert forall|j: int| 0 <= j < next.len() implies names_resolve(
                context@,
                button_name(side@, next[j]),
                #[trigger] button_views(buttons@)[j].id,
            ) by {
                if j < i {
                    assert(button_views(buttons@)[j] == row[j]);
                    assert(names_resolve(names, button_name(side@, upto[j]), row[j].id));
                }
            }
            assert forall|j: int| 0 <= j < buttons@.len() implies (#[trigger] button_views(
                buttons@,
            )[j]).value == Binary64::zero() by {
                if j < i {
                    assert(button_views(buttons@)[j] == row[j]);
                }
            }
        }
        i += 1;
    }
    proof {
        assert(texts.take(i as int) =~= texts);
    }
    buttons
}

/// Sends the visitor through the buttons of the row, first to last.
pub fn accept_buttons<W: SimulationElementVisitor>(buttons: &mut Vec<Button>, visitor: &mut W)
    ensures
        final(visitor).phase() == old(visitor).phase(),
        final(visitor).trace() == old(visitor).trace() + buttons_traversal(button_views(old(buttons)@)),
        (final(visitor).store(), button_views(final(buttons)@)) == buttons_traversed(
            button_views(old(buttons)@),
            old(visitor).phase(),
            old(visitor).store(),
        ),
{
    let ghost before = button_views(buttons@);
    let ghost phase = visitor.phase();
    let ghost store = visitor.store();
    let ghost trace = visitor.trace();
    let mut i: usize = 0;
    while i < buttons.len()
        invariant
            i <= buttons@.len(),
            buttons@.len() == before.len(),
            visitor.phase() == phase,
            visitor.trace() == trace + buttons_traversal(before.take(i as int)),
            forall|j: int| i <= j < before.len() ==> buttons@[j]@ == before[j],
            phase == Phase::Read ==> visitor.store() == store && forall|j: int|
                0 <= j < i ==> buttons@[j]@ == before[j].read(store),
            phase == Phase::Write ==> visitor.store() == buttons_written(
                before.take(i as int),
                store,
            ) && forall|j: int| 0 <= j < i ==> buttons@[j]@ == before[j],
        decreases buttons@.len() - i,
    {
        let ghost row = buttons@;
        let ghost seen = visitor.trace();
        buttons[i].accept(visitor);
        proof {
            let upto = before.take(i as int);
            let next = before.take(i as int + 1);
            assert(next.drop_last() =~= upto);
            assert(next.last() == before[i as int]);
            assert(seen + Button::traversal(before[i as int]) =~= trace + buttons_traversal(next));
            assert(forall|j: int| 0 <= j < row.len() && j != i ==> buttons@[j] == row[j]);
        }
        i += 1;
    }
    proof {
        assert(before.take(i as int) =~= before);
        assert(button_views(buttons@) =~= buttons_traversed(before, phase, store).1);
    }
}

/// After the buttons of a row have written, the store gives zero for each
/// variable of a button that was pressed, and for every other variable what
/// it gave before.
pub proof fn lemma_buttons_written_at(
    buttons: Seq<ButtonView>,
    store: StoreState,
    id: VariableIdentifier,
)
    ensures
        buttons_written(buttons, store).value(id) == (if row_presses(buttons, id) {
            Binary64::zero()
        } else {
            store.value(id)
        }),
    decreases buttons.len(),
{
    if buttons.len() > 0 {
        let front = buttons.drop_last();
        lemma_buttons_written_at(front, store, id);
        if row_presses(front, id) {
            let i = choose|i: int|
                0 <= i < front.len() && (#[trigger] front[i]).id == id && front[i].pressed();
            assert(buttons[i] == front[i]);
        }
        if row_presses(buttons, id) {
            let i = choose|i: int|
                0 <= i < buttons.len() && (#[trigger] buttons[i]).id == id && buttons[i].pressed();
            if i < front.len() {
                assert(front[i] == buttons[i]);
            }
        }
    }
}

/// The buttons of a row write once each where they are pressed, in the order
/// of the row, and not at all where they are not.
pub proof fn lemma_buttons_written_writes(buttons: Seq<ButtonView>, store: StoreState)
    ensures
        buttons_written(buttons, store).writes == store.writes + row_writes(buttons),
        row_writes(buttons).len() <= buttons.len(),
    decreases buttons.len(),
{
    if buttons.len() == 0 {
        assert(store.writes + row_writes(buttons) =~= store.writes);
    } else {
        let front = buttons.drop_last();
        lemma_buttons_written_writes(front, store);
        assert(buttons_written(buttons, store).writes =~= store.writes + row_writes(buttons));
    }
}

/// A row of which no button is pressed leaves the store as it is.
pub proof fn lemma_buttons_written_idle(buttons: Seq<ButtonView>, store: StoreState)
    requires
        forall|i: int| 0 <= i < buttons.len() ==> !(#[trigger] buttons[i]).pressed(),
    ensures
        buttons_written(buttons, store) == store,
    decreases buttons.len(),
{
    if buttons.len() > 0 {
        let front = buttons.drop_last();
        assert forall|i: int| 0 <= i < front.len() implies !(#[trigger] front[i]).pressed() by {
            assert(front[i] == buttons[i]);
        }
        lemma_buttons_written_idle(front, store);
    }
}

/// Two rows that write one after the other write as the rows joined.
pub proof fn lemma_buttons_written_joined(
    first: Seq<ButtonView>,
    second: Seq<ButtonView>,
    store: StoreState,
)
    ensures
        buttons_written(first + second, store) == buttons_written(
            second,
            buttons_written(first, store),
        ),
    decreases second.len(),
{
    if second.len() == 0 {
        assert(first + second =~= first);
    } else {
        lemma_buttons_written_joined(first, second.drop_last(), store);
        assert((first + second).drop_last() =~= first + second.drop_last());
        assert((first + second).last() == second.last());
    }
}

} // verus!
