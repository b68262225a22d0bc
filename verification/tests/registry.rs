use kccu::names::{button_variable_name, can_bus_variable_name};
use kccu::{InitContext, VariableIdentifier};

#[test]
fn new_registry_is_empty() {
    let context = InitContext::new();
    assert_eq!(context.len(), 0);
    assert_eq!(context.find("KCCU_L_A"), None);
    assert_eq!(context.name(&VariableIdentifier { index: 0 }), None);
}

#[test]
fn identifiers_count_up_in_order_of_registration() {
    let mut context = InitContext::new();
    let first = context.get_identifier("ONE".to_string());
    let second = context.get_identifier("TWO".to_string());
    let third = context.get_identifier("THREE".to_string());
    assert_eq!(first, VariableIdentifier { index: 0 });
    assert_eq!(second, VariableIdentifier { index: 1 });
    assert_eq!(third, VariableIdentifier { index: 2 });
    assert_eq!(context.len(), 3);
    assert_eq!(context.name(&first), Some("ONE"));
    assert_eq!(context.name(&second), Some("TWO"));
    assert_eq!(context.name(&third), Some("THREE"));
    assert_eq!(context.name(&VariableIdentifier { index: 3 }), None);
}

#[test]
fn a_known_name_keeps_its_identifier() {
    let mut context = InitContext::new();
    let first = context.get_identifier("ONE".to_string());
    let second = context.get_identifier("TWO".to_string());
    assert_eq!(context.get_identifier("ONE".to_string()), first);
    assert_eq!(context.get_identifier("TWO".to_string()), second);
    assert_eq!(context.len(), 2);
    assert_ne!(first, second);
}

#[test]
fn find_tells_known_from_unknown() {
    let mut context = InitContext::new();
    let id = context.get_identifier("ONE".to_string());
    assert_eq!(context.find("ONE"), Some(id));
    assert_eq!(context.find("one"), None);
    assert_eq!(context.find("ONE "), None);
    assert_eq!(context.find(""), None);
    assert_eq!(context.len(), 1);
}

#[test]
fn the_empty_name_is_a_name() {
    let mut context = InitContext::new();
    let id = context.get_identifier(String::new());
    assert_eq!(context.find(""), Some(id));
    assert_eq!(context.name(&id), Some(""));
}

#[test]
fn key_names_are_built_from_side_and_key() {
    assert_eq!(button_variable_name("L", "A"), "KCCU_L_A");
    assert_eq!(button_variable_name("R", "ESC"), "KCCU_R_ESC");
    assert_eq!(button_variable_name("", ""), "KCCU__");
    assert_eq!(button_variable_name("CAPT", "Z"), "KCCU_CAPT_Z");
}

#[test]
fn bus_names_are_built_from_side_and_bus() {
    assert_eq!(can_bus_variable_name("L", "1"), "KCCU_CAN_BUS_L_1");
    assert_eq!(can_bus_variable_name("R", "2"), "KCCU_CAN_BUS_R_2");
    assert_eq!(can_bus_variable_name("", "1"), "KCCU_CAN_BUS__1");
}

#[test]
fn a_bus_name_is_the_key_name_of_a_longer_side() {
    assert_eq!(can_bus_variable_name("L", "1"), button_variable_name("CAN_BUS_L", "1"));
}
