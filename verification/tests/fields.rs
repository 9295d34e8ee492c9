use blockwork::fields::FieldId;

#[test]
fn field_ids_round_trip_through_their_string_form() {
    for field in [
        FieldId::WaitDuration,
        FieldId::MoveMouseX,
        FieldId::CallArg(3),
        FieldId::BatteryChargeThreshold,
    ] {
        assert_eq!(field.to_string().parse(), Ok(field));
    }
    assert!("Nonsense".parse::<FieldId>().is_err());
    assert!("CallArg:x".parse::<FieldId>().is_err());
}

#[test]
fn unknown_field_names_the_offending_text() {
    assert_eq!(FieldId::from_text("Nonsense"), Err("Unknown FieldId: Nonsense".to_string()));
}

#[test]
fn call_arg_index_is_written_in_decimal() {
    assert_eq!(FieldId::CallArg(120).to_string(), "CallArg:120");
    assert_eq!(FieldId::from_text("CallArg:0"), Ok(FieldId::CallArg(0)));
    assert_eq!(FieldId::from_text("CallArg:+7"), Ok(FieldId::CallArg(7)));
    assert!(FieldId::from_text("CallArg:").is_err());
    assert!(FieldId::from_text("CallArg:99999999999999999999999").is_err());
}

#[test]
fn only_pixel_and_index_fields_require_integers() {
    assert!(FieldId::MoveMouseX.requires_integer());
    assert!(FieldId::ScrollAmount.requires_integer());
    assert!(FieldId::BatteryChargeThreshold.requires_integer());
    assert!(!FieldId::WaitDuration.requires_integer());
    assert!(!FieldId::TextValue.requires_integer());
    assert!(!FieldId::CallArg(1).requires_integer());
    assert!(!FieldId::DeleteOfListIndex.requires_integer());
    assert!(!FieldId::ShiftListAmount.requires_integer());
    assert!(FieldId::MoveMouseY.requires_integer());
    assert!(FieldId::BatteryDischargeThreshold.requires_integer());
}
