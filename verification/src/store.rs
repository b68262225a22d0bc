//! The simulator's variable store, as the elements of the simulation see it.

use std::collections::HashMap;
use vstd::prelude::*;
use crate::binary64::Binary64;
use crate::variable::VariableIdentifier;

verus! {

/// What a store is to its contracts: the value of every variable that has
/// one, and the variables that were written to, oldest first, one entry for
/// each write.
pub struct StoreState {
    pub values: Map<VariableIdentifier, Binary64>,
    pub writes: Seq<VariableIdentifier>,
}

impl StoreState {
    /// A store in which no variable has a value and nothing was written.
    pub open spec fn empty() -> StoreState {
        StoreState { values: Map::empty(), writes: Seq::empty() }
    }

    /// The value that the store gives for `id`: the variable's value, or zero
    /// where the variable has none.
    pub open spec fn value(self, id: VariableIdentifier) -> Binary64 {
        if self.values.contains_key(id) {
            self.values[id]
        } else {
            Binary64::zero()
        }
    }

    /// The store after one write of `value` to `id`.
    pub open spec fn write(self, id: VariableIdentifier, value: Binary64) -> StoreState {
        StoreState { values: self.values.insert(id, value), writes: self.writes.push(id) }
    }
}

/// A store of named variables that can be read and written by identifier.
pub trait VariableStore: Sized {
    /// What the store holds and what was written to it.
    spec fn state(&self) -> StoreState;

    /// The value of the variable `id`; zero where it has none.
    fn read(&self, id: &VariableIdentifier) -> (value: Binary64)
        ensures
            value == self.state().value(*id),
    ;

    /// Gives the variable `id` the value `value` and leaves every other
    /// variable as it was.
    fn write(&mut self, id: &VariableIdentifier, value: Binary64)
        ensures
            final(self).state() == old(self).state().write(*id, value),
    ;
}

/// A store kept in memory that also records, in order, which variable each
/// write went to.
pub struct RecordingStore {
    cells: HashMap<usize, Binary64>,
    journal: Vec<VariableIdentifier>,
}

impl RecordingStore {
    /// A store in which no variable has a value and nothing was written.
    pub fn new() -> (store: RecordingStore)
        ensures
            store.state() == StoreState::empty(),
    {
        let store = RecordingStore { cells: HashMap::new(), journal: Vec::new() };
        assert(store.state().values =~= StoreState::empty().values);
        store
    }

    /// The variables written to so far, oldest first, one entry for each
    /// write.
    pub fn journal(&self) -> (journal: &Vec<VariableIdentifier>)
        ensures
            journal@ == self.state().writes,
    {
        &self.journal
    }
}

impl VariableStore for RecordingStore {
    closed spec fn state(&self) -> StoreState {
        StoreState {
            values: Map::new(
                |id: VariableIdentifier| self.cells@.contains_key(id.index),
                |id: VariableIdentifier| self.cells@[id.index],
            ),
            writes: self.journal@,
        }
    }

    fn read(&self, id: &VariableIdentifier) -> (value: Binary64) {
        broadcast use vstd::std_specs::hash::group_hash_axioms;
        match self.cells.get(&id.index) {
            Some(value) => *value,
            None => Binary64::zero(),
        }
    }

    fn write(&mut self, id: &VariableIdentifier, value: Binary64) {
        broadcast use vstd::std_specs::hash::group_hash_axioms;
        self.cells.insert(id.index, value);
        self.journal.push(*id);
        assert(self.state().values =~= old(self).state().values.insert(*id, value));
    }
}

} // verus!
