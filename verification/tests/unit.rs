use kccu::{
    tick, Binary64, ElectricalBusType, InitContext, KeyboardAndCursorControlUnit, ReadPass,
    RecordingStore, VariableIdentifier, VariableStore, Visitable, WritePass,
};
use std::collections::HashSet;

const CURSOR_CONTROL_KEYS: [&str; 4] = ["ESC", "KBD", "REWIND", "FORWARD"];

const KEYBOARD_KEYS: [&str; 26] = [
    "A", "B", "C", "D", "E", "F", "G", "H", "I", "J", "K", "L", "M", "N", "O", "P", "Q", "R", "S",
    "T", "U", "V", "W", "X", "Y", "Z",
];

fn value(number: f64) -> Binary64 {
    Binary64::from_bits(number.to_bits())
}

fn unit_of(context: &mut InitContext, side: &str) -> KeyboardAndCursorControlUnit {
    KeyboardAndCursorControlUnit::new(
        context,
        side,
        ElectricalBusType::DirectCurrent(1),
        ElectricalBusType::DirectCurrentEssential,
        ElectricalBusType::DirectCurrent(2),
        ElectricalBusType::DirectCurrentEssential,
    )
}

fn names_of(side: &str) -> Vec<String> {
    let mut names = Vec::new();
    for key in CURSOR_CONTROL_KEYS {
        names.push(format!("KCCU_{}_{}", side, key));
    }
    for key in KEYBOARD_KEYS {
        names.push(format!("KCCU_{}_{}", side, key));
    }
    names.push(format!("KCCU_CAN_BUS_{}_1", side));
    names.push(format!("KCCU_CAN_BUS_{}_2", side));
    names
}

fn identifiers_of(unit: &KeyboardAndCursorControlUnit) -> Vec<VariableIdentifier> {
    let mut identifiers = Vec::new();
    let device = unit.cursor_control_device();
    for index in 0..device.key_count() {
        identifiers.push(device.key(index).unwrap().identifier());
    }
    let keyboard = unit.keyboard();
    for index in 0..keyboard.key_count() {
        identifiers.push(keyboard.key(index).unwrap().identifier());
    }
    identifiers.push(unit.output_can_bus_1());
    identifiers.push(unit.output_can_bus_2());
    identifiers
}

fn pressed_keys(unit: &KeyboardAndCursorControlUnit) -> Vec<VariableIdentifier> {
    let mut pressed = Vec::new();
    let device = unit.cursor_control_device();
    for index in 0..device.key_count() {
        if device.key(index).unwrap().button_pressed() {
            pressed.push(device.key(index).unwrap().identifier());
        }
    }
    let keyboard = unit.keyboard();
    for index in 0..keyboard.key_count() {
        if keyboard.key(index).unwrap().button_pressed() {
            pressed.push(keyboard.key(index).unwrap().identifier());
        }
    }
    pressed
}

#[test]
fn a_unit_registers_its_names_in_order() {
    let mut context = InitContext::new();
    let unit = unit_of(&mut context, "L");
    let names = names_of("L");
    assert_eq!(names.len(), 32);
    assert_eq!(context.len(), 32);
    let identifiers = identifiers_of(&unit);
    assert_eq!(identifiers.len(), 32);
    for (index, name) in names.iter().enumerate() {
        assert_eq!(context.find(name), Some(VariableIdentifier { index }));
        assert_eq!(context.name(&identifiers[index]), Some(name.as_str()));
        assert_eq!(identifiers[index], VariableIdentifier { index });
    }
    assert_eq!(context.find("KCCU_CAN_BUS_L_1"), Some(unit.output_can_bus_1()));
    assert_eq!(context.find("KCCU_CAN_BUS_L_2"), Some(unit.output_can_bus_2()));
    assert_eq!(context.find("KCCU_L_ESC"), Some(VariableIdentifier { index: 0 }));
    assert_eq!(context.find("KCCU_L_A"), Some(VariableIdentifier { index: 4 }));
    assert_eq!(context.find("KCCU_L_Z"), Some(VariableIdentifier { index: 29 }));
    assert_eq!(unit.output_can_bus_1(), VariableIdentifier { index: 30 });
    assert_eq!(unit.output_can_bus_2(), VariableIdentifier { index: 31 });
}

#[test]
fn a_unit_registers_after_what_is_there() {
    let mut context = InitContext::new();
    let earlier = context.get_identifier("EARLIER".to_string());
    let known = context.get_identifier("KCCU_L_B".to_string());
    let unit = unit_of(&mut context, "L");
    assert_eq!(context.len(), 33);
    assert_eq!(context.find("EARLIER"), Some(earlier));
    assert_eq!(unit.keyboard().key(1).unwrap().identifier(), known);
    assert_eq!(unit.cursor_control_device().key(0).unwrap().identifier().index, 2);
    assert_eq!(unit.keyboard().key(0).unwrap().identifier().index, 6);
    assert_eq!(unit.keyboard().key(2).unwrap().identifier().index, 7);
    assert_eq!(unit.output_can_bus_2().index, 32);
}

#[test]
fn the_output_buses_are_two_variables() {
    let mut context = InitContext::new();
    let unit = unit_of(&mut context, "L");
    assert_ne!(unit.output_can_bus_1(), unit.output_can_bus_2());
}

#[test]
fn each_device_gets_its_own_sources() {
    let mut context = InitContext::new();
    let unit = KeyboardAndCursorControlUnit::new(
        &mut context,
        "L",
        ElectricalBusType::DirectCurrent(1),
        ElectricalBusType::DirectCurrentEssential,
        ElectricalBusType::AlternatingCurrent(2),
        ElectricalBusType::DirectCurrentBattery,
    );
    assert_eq!(unit.keyboard().primary_source(), ElectricalBusType::DirectCurrent(1));
    assert_eq!(unit.keyboard().fallback_source(), ElectricalBusType::DirectCurrentEssential);
    assert_eq!(
        unit.cursor_control_device().primary_source(),
        ElectricalBusType::AlternatingCurrent(2)
    );
    assert_eq!(
        unit.cursor_control_device().fallback_source(),
        ElectricalBusType::DirectCurrentBattery
    );
}

#[test]
fn a_new_unit_has_all_keys_released() {
    let mut context = InitContext::new();
    let unit = unit_of(&mut context, "L");
    assert_eq!(unit.cursor_control_device().key_count(), 4);
    assert_eq!(unit.keyboard().key_count(), 26);
    assert!(pressed_keys(&unit).is_empty());
    assert!(unit.cursor_control_device().key(4).is_none());
    assert!(unit.keyboard().key(26).is_none());
    assert!(unit.keyboard().key(usize::MAX).is_none());
}

#[test]
fn left_and_right_units_share_no_variable() {
    let mut context = InitContext::new();
    let left = unit_of(&mut context, "L");
    let right = unit_of(&mut context, "R");
    assert_eq!(context.len(), 64);
    let left_identifiers = identifiers_of(&left);
    let right_identifiers = identifiers_of(&right);
    let left_set: HashSet<VariableIdentifier> = left_identifiers.iter().copied().collect();
    let right_set: HashSet<VariableIdentifier> = right_identifiers.iter().copied().collect();
    assert_eq!(left_set.len(), 32);
    assert_eq!(right_set.len(), 32);
    assert!(left_set.is_disjoint(&right_set));
    for (index, name) in names_of("L").iter().enumerate() {
        assert_eq!(context.name(&left_identifiers[index]), Some(name.as_str()));
    }
    for (index, name) in names_of("R").iter().enumerate() {
        assert_eq!(context.name(&right_identifiers[index]), Some(name.as_str()));
    }
}

#[test]
fn the_same_side_gives_the_same_variables() {
    let mut context = InitContext::new();
    let first = unit_of(&mut context, "L");
    let again = unit_of(&mut context, "L");
    assert_eq!(context.len(), 32);
    assert_eq!(identifiers_of(&first), identifiers_of(&again));

    let mut other_context = InitContext::new();
    let other = unit_of(&mut other_context, "L");
    assert_eq!(identifiers_of(&first), identifiers_of(&other));
}

#[test]
fn odd_sides_do_not_collide() {
    let mut context = InitContext::new();
    let plain = unit_of(&mut context, "L");
    let longer = unit_of(&mut context, "L_A");
    let bus_like = unit_of(&mut context, "CAN_BUS_L");
    let empty = unit_of(&mut context, "");
    assert_eq!(context.len(), 128);
    let mut all = HashSet::new();
    for unit in [&plain, &longer, &bus_like, &empty] {
        for id in identifiers_of(unit) {
            assert!(all.insert(id));
        }
    }
    assert_eq!(context.find("KCCU__A"), Some(empty.keyboard().key(0).unwrap().identifier()));
    assert_eq!(context.find("KCCU_CAN_BUS__1"), Some(empty.output_can_bus_1()));
    assert_eq!(context.find("KCCU_CAN_BUS_CAN_BUS_L_2"), Some(bus_like.output_can_bus_2()));
}

#[test]
fn key_a_of_the_left_unit_is_seen_for_one_tick() {
    let mut context = InitContext::new();
    let mut unit = unit_of(&mut context, "L");
    let id = context.find("KCCU_L_A").unwrap();
    let mut store = RecordingStore::new();
    store.write(&id, value(1.0));

    let mut reading = ReadPass::new(&store);
    unit.accept(&mut reading);
    assert!(unit.keyboard().key(0).unwrap().button_pressed());
    assert_eq!(pressed_keys(&unit), vec![id]);
    let mut writing = WritePass::new(store);
    unit.accept(&mut writing);
    let store = writing.into_store();
    assert_eq!(store.read(&id), Binary64::zero());
    assert_eq!(store.journal(), &vec![id, id]);

    let mut reading = ReadPass::new(&store);
    unit.accept(&mut reading);
    assert!(!unit.keyboard().key(0).unwrap().button_pressed());
    assert!(pressed_keys(&unit).is_empty());
    let mut writing = WritePass::new(store);
    unit.accept(&mut writing);
    let mut store = writing.into_store();
    assert_eq!(store.read(&id), Binary64::zero());
    assert_eq!(store.journal(), &vec![id, id]);

    store.write(&id, value(1.0));
    let store = tick(&mut unit, store);
    assert_eq!(pressed_keys(&unit), vec![id]);
    assert_eq!(store.read(&id), Binary64::zero());
    assert_eq!(store.journal(), &vec![id, id, id, id]);
    let store = tick(&mut unit, store);
    assert!(pressed_keys(&unit).is_empty());
    assert_eq!(store.journal().len(), 4);
}

#[test]
fn a_pass_goes_through_the_cursor_control_device_first() {
    let mut context = InitContext::new();
    let mut unit = unit_of(&mut context, "L");
    let identifiers = identifiers_of(&unit);
    let mut store = RecordingStore::new();
    for id in identifiers.iter().rev() {
        store.write(id, value(1.0));
    }
    assert_eq!(store.journal().len(), 32);

    let store = tick(&mut unit, store);
    let keys: Vec<VariableIdentifier> = identifiers[..30].to_vec();
    assert_eq!(pressed_keys(&unit), keys);
    assert_eq!(store.journal()[32..].to_vec(), keys);
    assert_eq!(store.journal().len(), 62);
    for id in &keys {
        assert_eq!(store.read(id), Binary64::zero());
    }

    let store = tick(&mut unit, store);
    assert!(pressed_keys(&unit).is_empty());
    assert_eq!(store.journal().len(), 62);
}

#[test]
fn the_output_buses_are_left_alone() {
    let mut context = InitContext::new();
    let mut unit = unit_of(&mut context, "L");
    let mut store = RecordingStore::new();
    store.write(&unit.output_can_bus_1(), value(1.0));
    store.write(&unit.output_can_bus_2(), value(2.0));
    let store = tick(&mut unit, store);
    assert_eq!(store.read(&unit.output_can_bus_1()), value(1.0));
    assert_eq!(store.read(&unit.output_can_bus_2()), value(2.0));
    assert_eq!(store.journal().len(), 2);
    assert!(pressed_keys(&unit).is_empty());
}

#[test]
fn only_the_pressed_keys_are_reset() {
    let mut context = InitContext::new();
    let mut unit = unit_of(&mut context, "R");
    let escape = context.find("KCCU_R_ESC").unwrap();
    let forward = context.find("KCCU_R_FORWARD").unwrap();
    let m = context.find("KCCU_R_M").unwrap();
    let z = context.find("KCCU_R_Z").unwrap();
    let stranger = context.get_identifier("KCCU_R_1".to_string());
    let mut store = RecordingStore::new();
    store.write(&z, value(1.0));
    store.write(&escape, value(1.0));
    store.write(&m, value(-1.0));
    store.write(&forward, value(0.0));
    store.write(&stranger, value(1.0));

    let store = tick(&mut unit, store);
    assert_eq!(pressed_keys(&unit), vec![escape, z]);
    assert_eq!(store.journal()[5..].to_vec(), vec![escape, z]);
    assert_eq!(store.read(&escape), Binary64::zero());
    assert_eq!(store.read(&z), Binary64::zero());
    assert_eq!(store.read(&m), value(-1.0));
    assert_eq!(store.read(&forward), value(0.0));
    assert_eq!(store.read(&stranger), value(1.0));
}

#[test]
fn units_on_one_store_do_not_see_each_other() {
    let mut context = InitContext::new();
    let mut left = unit_of(&mut context, "L");
    let mut right = unit_of(&mut context, "R");
    let left_a = context.find("KCCU_L_A").unwrap();
    let right_a = context.find("KCCU_R_A").unwrap();
    let mut store = RecordingStore::new();
    store.write(&left_a, value(1.0));
    store.write(&right_a, value(1.0));

    let store = tick(&mut left, store);
    assert_eq!(pressed_keys(&left), vec![left_a]);
    assert_eq!(store.read(&left_a), Binary64::zero());
    assert_eq!(store.read(&right_a), value(1.0));

    let store = tick(&mut right, store);
    assert_eq!(pressed_keys(&right), vec![right_a]);
    assert_eq!(store.read(&right_a), Binary64::zero());
    assert_eq!(pressed_keys(&left), vec![left_a]);
}
