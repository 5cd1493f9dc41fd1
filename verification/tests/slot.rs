use bw_model::SlotId;

#[test]
fn field_slot_identity_ignores_where_the_base_pointer_came_from() {
    let from_register = SlotId::field("%struct.sqlite3", vec!["0".into(), "52".into()]);
    let from_dispatch = SlotId::field("%struct.sqlite3", vec!["0".into(), "52".into()]);
    assert_eq!(from_register, from_dispatch);
}

#[test]
fn different_fields_of_the_same_struct_are_different_slots() {
    let callback = SlotId::field("%struct.sqlite3", vec!["0".into(), "52".into()]);
    let user_data = SlotId::field("%struct.sqlite3", vec!["0".into(), "51".into()]);
    assert_ne!(callback, user_data);
    assert_eq!(callback.describe(), "%struct.sqlite3[0.52]");
}

#[test]
fn global_slot_describes_with_the_at_sign() {
    assert_eq!(SlotId::global("g_callback").describe(), "@g_callback");
}

#[test]
fn a_field_slot_without_a_path_describes_as_its_struct_type() {
    assert_eq!(SlotId::field("%struct.s", Vec::new()).describe(), "%struct.s");
}

#[test]
fn a_three_step_field_path_is_joined_with_dots() {
    let slot = SlotId::field("%t", vec!["1".into(), "2".into(), "3".into()]);
    assert_eq!(slot.describe(), "%t[1.2.3]");
}
