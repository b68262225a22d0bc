//! The traversal protocol: elements, visitors, and the two passes of a tick.
//!
//! A driver reaches every element of a tree through `Visitable::accept`, which
//! hands the element and everything below it to a visitor, one node at a time.
//! What a visitor does with a node depends on its phase alone: in the read
//! phase it makes the node read from its store, in the write phase it makes the
//! node write to it. A visitor also keeps a trace: for each node it was handed,
//! in order, the identifiers that the node owns, itself or through what is
//! below it.

use vstd::prelude::*;
use crate::store::{StoreState, VariableStore};
use crate::variable::VariableIdentifier;

verus! {

/// The two phases of a tick.
#[derive(Clone, Copy, PartialEq, Eq, Structural, Debug)]
pub enum Phase {
    /// Every element takes its inputs from the store.
    Read,
    /// Every element puts its outputs into the store.
    Write,
}

/// The nodes that a visitor was handed, oldest first, each given by the
/// identifiers that it owns.
pub type Trace = Seq<Seq<VariableIdentifier>>;

/// A node of the simulation: something that reads from and writes to the
/// variable store once per tick.
pub trait SimulationElement: View + Sized {
    /// The identifiers that the node owns, itself or through the nodes below
    /// it.
    spec fn identifiers(element: Self::V) -> Seq<VariableIdentifier>;

    /// The node after it has read from a store in the state `store`.
    spec fn after_read(element: Self::V, store: StoreState) -> Self::V;

    /// The state of a store that was in the state `store` after the node has
    /// written to it.
    spec fn after_write(element: Self::V, store: StoreState) -> StoreState;

    /// Takes the node's inputs from the store.
    fn read<S: VariableStore>(&mut self, store: &S)
        ensures
            final(self)@ == Self::after_read(old(self)@, store.state()),
    ;

    /// Puts the node's outputs into the store.
    fn write<S: VariableStore>(&self, store: &mut S)
        ensures
            final(store).state() == Self::after_write(self@, old(store).state()),
    ;
}

/// What one visit in `phase` makes of the store and of the node.
pub open spec fn visit_outcome<T: SimulationElement>(
    phase: Phase,
    store: StoreState,
    element: T::V,
) -> (StoreState, T::V) {
    match phase {
        Phase::Read => (store, T::after_read(element, store)),
        Phase::Write => (T::after_write(element, store), element),
    }
}

/// A pass over the elements of a tree, on behalf of a variable store.
pub trait SimulationElementVisitor: Sized {
    /// The phase that the pass carries out. It never changes.
    spec fn phase(&self) -> Phase;

    /// The state of the store that the pass works on.
    spec fn store(&self) -> StoreState;

    /// The nodes visited so far.
    spec fn trace(&self) -> Trace;

    /// Visits one node: makes it read or write, according to the phase, and
    /// notes it in the trace.
    fn visit<T: SimulationElement>(&mut self, element: &mut T)
        ensures
            final(self).phase() == old(self).phase(),
            final(self).trace() == old(self).trace().push(T::identifiers(old(element)@)),
            (final(self).store(), final(element)@) == visit_outcome::<T>(
                old(self).phase(),
                old(self).store(),
                old(element)@,
            ),
    ;
}

/// An element that a visitor can be sent through: itself a node, with any
/// number of elements below it.
pub trait Visitable: SimulationElement {
    /// The nodes of the element's tree in the order in which `accept` visits
    /// them, each given by the identifiers that it owns.
    spec fn traversal(element: Self::V) -> Trace;

    /// What a whole pass in `phase` makes of the store and of the element.
    spec fn traversed(element: Self::V, phase: Phase, store: StoreState) -> (StoreState, Self::V);

    /// Hands every node of the element's tree to the visitor, each exactly
    /// once, in the order of `traversal`.
    fn accept<W: SimulationElementVisitor>(&mut self, visitor: &mut W)
        ensures
            final(visitor).phase() == old(visitor).phase(),
            final(visitor).trace() == old(visitor).trace() + Self::traversal(old(self)@),
            (final(visitor).store(), final(self)@) == Self::traversed(
                old(self)@,
                old(visitor).phase(),
                old(visitor).store(),
            ),
            old(visitor).phase() == Phase::Read ==> final(visitor).store() == old(visitor).store(),
            old(visitor).phase() == Phase::Write ==> final(self)@ == old(self)@,
    ;
}

/// The read pass of a tick: every node visited reads from the store.
pub struct ReadPass<'a, S: VariableStore> {
    store: &'a S,
    trace: Ghost<Trace>,
}

impl<'a, S: VariableStore> ReadPass<'a, S> {
    /// A read pass on `store` that has visited nothing yet.
    pub fn new(store: &'a S) -> (pass: Self)
        ensures
            pass.store() == store.state(),
            pass.trace() == Trace::empty(),
    {
        ReadPass { store, trace: Ghost(Seq::empty()) }
    }
}

impl<'a, S: VariableStore> SimulationElementVisitor for ReadPass<'a, S> {
    open spec fn phase(&self) -> Phase {
        Phase::Read
    }

    closed spec fn store(&self) -> StoreState {
        self.store.state()
    }

    closed spec fn trace(&self) -> Trace {
        self.trace@
    }

    fn visit<T: SimulationElement>(&mut self, element: &mut T) {
        element.read(self.store);
        self.trace = Ghost(self.trace@.push(T::identifiers(old(element)@)));
    }
}

/// The write pass of a tick: every node visited writes to the store.
pub struct WritePass<S: VariableStore> {
    store: S,
    trace: Ghost<Trace>,
}

impl<S: VariableStore> WritePass<S> {
    /// A write pass on `store` that has visited nothing yet.
    pub fn new(store: S) -> (pass: Self)
        ensures
            pass.store() == store.state(),
            pass.trace() == Trace::empty(),
    {
        WritePass { store, trace: Ghost(Seq::empty()) }
    }

    /// Ends the pass and gives the store back.
    pub fn into_store(self) -> (store: S)
        ensures
            store.state() == self.store(),
    {
        self.store
    }
}

impl<S: VariableStore> SimulationElementVisitor for WritePass<S> {
    open spec fn phase(&self) -> Phase {
        Phase::Write
    }

    closed spec fn store(&self) -> StoreState {
        self.store.state()
    }

    closed spec fn trace(&self) -> Trace {
        self.trace@
    }

    fn visit<T: SimulationElement>(&mut self, element: &mut T) {
        element.write(&mut self.store);
        self.trace = Ghost(self.trace@.push(T::identifiers(old(element)@)));
    }
}

/// One tick of `element` on `store`: the read pass over the whole tree, then
/// the write pass over the whole tree.
pub fn tick<E: Visitable, S: VariableStore>(element: &mut E, store: S) -> (after: S)
    ensures
        final(element)@ == E::traversed(old(element)@, Phase::Read, store.state()).1,
        after.state() == E::traversed(final(element)@, Phase::Write, store.state()).0,
{
    let mut reading = ReadPass::new(&store);
    element.accept(&mut reading);
    let mut writing = WritePass::new(store);
    element.accept(&mut writing);
    writing.into_store()
}

} // verus!
