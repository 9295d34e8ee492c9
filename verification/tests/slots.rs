use blockwork::fields::FieldId;
use blockwork::instruction::{InputToken, InstructionKind};
use blockwork::macros::{BlockDef, BlockShape, InputValueType};
use blockwork::slots::{blank_field_value, replace_slot, value_slot, value_slot_mut};
use blockwork::state::Coordinate;
use blockwork::value::Value;

fn number(v: f64) -> Value {
    Value::Number { bits: v.to_bits() }
}

#[test]
fn fields_address_their_own_slots() {
    let k = InstructionKind::Token(InputToken::MoveMouse(number(1.0), number(2.0), Coordinate::Abs));
    assert_eq!(value_slot(&k, FieldId::MoveMouseX), Some(&number(1.0)));
    assert_eq!(value_slot(&k, FieldId::MoveMouseY), Some(&number(2.0)));
    assert_eq!(value_slot(&k, FieldId::WaitDuration), None);
    let call = InstructionKind::CallBlock { block_id: "b".into(), args: vec![number(5.0)], branches: vec![] };
    assert_eq!(value_slot(&call, FieldId::CallArg(0)), Some(&number(5.0)));
    assert_eq!(value_slot(&call, FieldId::CallArg(1)), None);
    let cond = InstructionKind::While { condition: Value::Bool, body: vec![] };
    assert_eq!(value_slot(&cond, FieldId::Condition), Some(&Value::Bool));
}

#[test]
fn a_write_is_read_back_and_leaves_other_slots_alone() {
    let mut k = InstructionKind::Token(InputToken::MoveMouse(number(1.0), number(2.0), Coordinate::Rel));
    assert_eq!(replace_slot(&mut k, FieldId::MoveMouseY, number(9.0)), Some(number(2.0)));
    assert_eq!(value_slot(&k, FieldId::MoveMouseY), Some(&number(9.0)));
    assert_eq!(value_slot(&k, FieldId::MoveMouseX), Some(&number(1.0)));
    assert_eq!(k, InstructionKind::Token(InputToken::MoveMouse(number(1.0), number(9.0), Coordinate::Rel)));
}

#[test]
fn writing_back_the_old_value_restores_the_instruction() {
    let original = InstructionKind::CallBlock { block_id: "b".into(), args: vec![number(1.0), number(2.0)], branches: vec![] };
    let mut k = InstructionKind::CallBlock { block_id: "b".into(), args: vec![number(1.0), number(2.0)], branches: vec![] };
    let old = replace_slot(&mut k, FieldId::CallArg(1), Value::Bool).unwrap();
    assert_ne!(k, original);
    replace_slot(&mut k, FieldId::CallArg(1), old);
    assert_eq!(k, original);
}

#[test]
fn a_missing_slot_changes_nothing() {
    let mut k = InstructionKind::Comment("x".into());
    assert_eq!(replace_slot(&mut k, FieldId::TextValue, number(1.0)), None);
    assert_eq!(k, InstructionKind::Comment("x".into()));
    let mut call = InstructionKind::CallBlock { block_id: "b".into(), args: vec![], branches: vec![] };
    assert_eq!(replace_slot(&mut call, FieldId::CallArg(0), number(1.0)), None);
}

#[test]
fn value_slot_mut_edits_the_named_slot_in_place() {
    let mut k = InstructionKind::Token(InputToken::MoveMouse(number(1.0), number(2.0), Coordinate::Abs));
    *value_slot_mut(&mut k, FieldId::MoveMouseY).unwrap() = number(9.0);
    assert_eq!(k, InstructionKind::Token(InputToken::MoveMouse(number(1.0), number(9.0), Coordinate::Abs)));
    assert!(value_slot_mut(&mut k, FieldId::WaitDuration).is_none());
    let mut call = InstructionKind::CallBlock { block_id: "b".into(), args: vec![number(1.0)], branches: vec![] };
    assert!(value_slot_mut(&mut call, FieldId::CallArg(1)).is_none());
    *value_slot_mut(&mut call, FieldId::CallArg(0)).unwrap() = number(5.0);
    assert_eq!(call, InstructionKind::CallBlock { block_id: "b".into(), args: vec![number(5.0)], branches: vec![] });
}

#[test]
fn boolean_inputs_and_conditions_blank_to_the_blank_condition() {
    let call = InstructionKind::CallBlock { block_id: "b".into(), args: vec![number(1.0), number(2.0)], branches: vec![] };
    let defs = vec![
        BlockDef { id: "b".into(), shape: BlockShape::Normal, color: "#FFAA00".into(), inputs: vec![InputValueType::Any, InputValueType::Bool] },
        BlockDef { id: "b".into(), shape: BlockShape::Normal, color: "#FFAA00".into(), inputs: vec![InputValueType::Bool, InputValueType::Bool] },
    ];
    assert_eq!(blank_field_value(&call, FieldId::CallArg(1), &defs), Some(Value::Bool));
    assert_eq!(blank_field_value(&call, FieldId::CallArg(0), &defs), None);
    assert_eq!(blank_field_value(&call, FieldId::CallArg(5), &defs), None);
    assert_eq!(blank_field_value(&call, FieldId::CallArg(1), &[]), None);
    let wait = InstructionKind::Wait(number(1.0));
    assert_eq!(blank_field_value(&wait, FieldId::WaitDuration, &defs), None);
    assert_eq!(blank_field_value(&wait, FieldId::Condition, &defs), Some(Value::Bool));
}
