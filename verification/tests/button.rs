use kccu::{
    tick, Binary64, Button, InitContext, ReadPass, RecordingStore, SimulationElement,
    VariableIdentifier, VariableStore, Visitable, WritePass,
};

fn value(number: f64) -> Binary64 {
    Binary64::from_bits(number.to_bits())
}

fn number(value: Binary64) -> f64 {
    f64::from_bits(value.to_bits())
}

#[test]
fn a_new_button_is_registered_and_released() {
    let mut context = InitContext::new();
    let button = Button::new(&mut context, "L", "A");
    assert!(!button.button_pressed());
    assert_eq!(context.len(), 1);
    assert_eq!(context.find("KCCU_L_A"), Some(button.identifier()));
    assert_eq!(context.name(&button.identifier()), Some("KCCU_L_A"));
    assert_eq!(button.identifier(), VariableIdentifier { index: 0 });
}

#[test]
fn two_buttons_of_one_key_share_the_variable() {
    let mut context = InitContext::new();
    let first = Button::new(&mut context, "L", "A");
    let other = Button::new(&mut context, "L", "B");
    let again = Button::new(&mut context, "L", "A");
    assert_eq!(first.identifier(), again.identifier());
    assert_ne!(first.identifier(), other.identifier());
    assert_eq!(context.len(), 2);
}

#[test]
fn flag_set_once_is_seen_for_one_tick() {
    let mut context = InitContext::new();
    let mut button = Button::new(&mut context, "L", "A");
    let id = context.find("KCCU_L_A").unwrap();
    let mut store = RecordingStore::new();
    store.write(&id, value(1.0));
    assert_eq!(store.journal().len(), 1);

    button.read(&store);
    assert!(button.button_pressed());
    assert_eq!(number(store.read(&id)), 1.0);
    button.write(&mut store);
    assert_eq!(number(store.read(&id)), 0.0);
    assert_eq!(store.read(&id), Binary64::zero());
    assert_eq!(store.journal().len(), 2);

    button.read(&store);
    assert!(!button.button_pressed());
    button.write(&mut store);
    assert_eq!(store.read(&id), Binary64::zero());
    assert_eq!(store.journal().len(), 2);
}

#[test]
fn flag_set_again_is_seen_again() {
    let mut context = InitContext::new();
    let mut button = Button::new(&mut context, "L", "A");
    let id = context.find("KCCU_L_A").unwrap();
    let mut store = RecordingStore::new();
    store.write(&id, value(1.0));

    button.read(&store);
    assert!(button.button_pressed());
    button.write(&mut store);
    button.read(&store);
    assert!(!button.button_pressed());
    button.write(&mut store);
    assert_eq!(store.journal().len(), 2);

    store.write(&id, value(1.0));
    button.read(&store);
    assert!(button.button_pressed());
    assert_eq!(number(store.read(&id)), 1.0);
    button.write(&mut store);
    assert_eq!(store.read(&id), Binary64::zero());
    assert_eq!(store.journal(), &vec![id, id, id, id]);

    button.read(&store);
    assert!(!button.button_pressed());
    button.write(&mut store);
    assert_eq!(store.journal().len(), 4);
}

#[test]
fn pressed_in_the_first_of_many_ticks_only() {
    let mut context = InitContext::new();
    let mut button = Button::new(&mut context, "R", "Q");
    let id = button.identifier();
    let mut store = RecordingStore::new();
    store.write(&id, value(0.25));
    for count in 1..=10 {
        store = tick(&mut button, store);
        assert_eq!(button.button_pressed(), count == 1);
        assert_eq!(store.read(&id), Binary64::zero());
        assert_eq!(store.journal(), &vec![id, id]);
    }
}

#[test]
fn a_store_that_holds_zero_is_not_written() {
    let mut context = InitContext::new();
    let mut button = Button::new(&mut context, "L", "A");
    let id = button.identifier();
    let mut store = RecordingStore::new();
    store.write(&id, value(0.0));
    button.read(&store);
    assert!(!button.button_pressed());
    button.write(&mut store);
    assert_eq!(store.journal().len(), 1);
    assert_eq!(store.read(&id), value(0.0));
}

#[test]
fn a_variable_nobody_set_reads_as_released() {
    let mut context = InitContext::new();
    let mut button = Button::new(&mut context, "L", "A");
    let mut store = RecordingStore::new();
    button.read(&store);
    assert!(!button.button_pressed());
    button.write(&mut store);
    assert!(store.journal().is_empty());
}

#[test]
fn values_not_above_zero_are_left_in_the_store() {
    for held in [-1.0, -0.0, f64::NAN, f64::NEG_INFINITY, -f64::MIN_POSITIVE] {
        let mut context = InitContext::new();
        let mut button = Button::new(&mut context, "L", "A");
        let id = button.identifier();
        let mut store = RecordingStore::new();
        store.write(&id, value(held));
        store = tick(&mut button, store);
        assert!(!button.button_pressed());
        assert_eq!(store.read(&id), value(held));
        assert_eq!(store.journal().len(), 1);
    }
}

#[test]
fn every_value_above_zero_is_a_press() {
    for held in [1.0, 0.5, 100.0, f64::MIN_POSITIVE, f64::from_bits(1), f64::MAX, f64::INFINITY] {
        let mut context = InitContext::new();
        let mut button = Button::new(&mut context, "L", "A");
        let id = button.identifier();
        let mut store = RecordingStore::new();
        store.write(&id, value(held));
        store = tick(&mut button, store);
        assert!(button.button_pressed());
        assert_eq!(store.read(&id), Binary64::zero());
        assert_eq!(store.journal().len(), 2);
    }
}

#[test]
fn a_write_touches_the_own_variable_only() {
    let mut context = InitContext::new();
    let mut button = Button::new(&mut context, "L", "A");
    let other = context.get_identifier("KCCU_L_B".to_string());
    let id = button.identifier();
    let mut store = RecordingStore::new();
    store.write(&id, value(1.0));
    store.write(&other, value(1.0));
    store = tick(&mut button, store);
    assert_eq!(store.read(&id), Binary64::zero());
    assert_eq!(store.read(&other), value(1.0));
    assert_eq!(store.journal(), &vec![id, other, id]);
}

#[test]
fn the_sample_is_from_the_last_read() {
    let mut context = InitContext::new();
    let mut button = Button::new(&mut context, "L", "A");
    let id = button.identifier();
    let mut store = RecordingStore::new();
    store.write(&id, value(1.0));
    button.read(&store);
    store.write(&id, value(0.0));
    assert!(button.button_pressed());
    store.write(&id, value(3.0));
    button.write(&mut store);
    assert_eq!(store.read(&id), Binary64::zero());
    button.read(&store);
    assert!(!button.button_pressed());
}

#[test]
fn a_pass_over_a_button_visits_the_button() {
    let mut context = InitContext::new();
    let mut button = Button::new(&mut context, "L", "A");
    let id = button.identifier();
    let mut store = RecordingStore::new();
    store.write(&id, value(1.0));
    let mut reading = ReadPass::new(&store);
    button.accept(&mut reading);
    assert!(button.button_pressed());
    assert_eq!(store.read(&id), value(1.0));
    let mut writing = WritePass::new(store);
    button.accept(&mut writing);
    let store = writing.into_store();
    assert!(button.button_pressed());
    assert_eq!(store.read(&id), Binary64::zero());
}
