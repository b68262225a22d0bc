use kccu::{Binary64, RecordingStore, VariableIdentifier, VariableStore};

fn value(number: f64) -> Binary64 {
    Binary64::from_bits(number.to_bits())
}

#[test]
fn a_variable_without_a_value_reads_as_zero() {
    let store = RecordingStore::new();
    assert_eq!(store.read(&VariableIdentifier { index: 0 }), Binary64::zero());
    assert_eq!(store.read(&VariableIdentifier { index: usize::MAX }), Binary64::zero());
    assert!(store.journal().is_empty());
}

#[test]
fn a_write_is_read_back_and_leaves_the_others() {
    let mut store = RecordingStore::new();
    let first = VariableIdentifier { index: 3 };
    let second = VariableIdentifier { index: 4 };
    store.write(&first, value(1.0));
    store.write(&second, value(-2.5));
    assert_eq!(store.read(&first), value(1.0));
    assert_eq!(store.read(&second), value(-2.5));
    store.write(&first, value(7.0));
    assert_eq!(store.read(&first), value(7.0));
    assert_eq!(store.read(&second), value(-2.5));
    assert_eq!(store.read(&VariableIdentifier { index: 5 }), Binary64::zero());
}

#[test]
fn the_journal_lists_every_write_in_order() {
    let mut store = RecordingStore::new();
    let first = VariableIdentifier { index: 1 };
    let second = VariableIdentifier { index: 0 };
    store.write(&first, value(1.0));
    store.write(&second, value(1.0));
    store.write(&first, value(1.0));
    assert_eq!(store.journal(), &vec![first, second, first]);
    let _ = store.read(&first);
    assert_eq!(store.journal().len(), 3);
}
