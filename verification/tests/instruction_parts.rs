use blockwork::instruction::{InputToken, InstructionKind};
use blockwork::state::Direction;
use blockwork::value::Value;

fn number(v: f64) -> Value {
    Value::Number { bits: v.to_bits() }
}

#[test]
fn variable_writers_expose_their_target_for_renaming() {
    let mut set = InstructionKind::SetVariable("x".into(), number(1.0));
    *set.variable_target_mut().unwrap() = "y".into();
    assert_eq!(set, InstructionKind::SetVariable("y".into(), number(1.0)));
    let mut change = InstructionKind::ChangeVariable("a".into(), number(2.0));
    assert_eq!(change.variable_target_mut().map(|n| n.clone()), Some("a".to_string()));
    let mut wait = InstructionKind::Wait(number(1.0));
    assert!(wait.variable_target_mut().is_none());
}

#[test]
fn call_sites_are_matched_by_block_id() {
    let mut call = InstructionKind::CallBlock { block_id: "b1".into(), args: vec![number(1.0)], branches: vec![] };
    assert!(call.calls_block("b1"));
    assert!(!call.calls_block("b2"));
    assert!(call.call_args_mut("b2").is_none());
    call.call_args_mut("b1").unwrap().push(Value::Bool);
    assert_eq!(
        call,
        InstructionKind::CallBlock { block_id: "b1".into(), args: vec![number(1.0), Value::Bool], branches: vec![] }
    );
    assert!(!InstructionKind::WhenRan.calls_block("b1"));
}

#[test]
fn only_block_headers_name_a_block() {
    assert_eq!(InstructionKind::BlockHeader("b7".into()).block_header_id(), Some("b7"));
    assert_eq!(InstructionKind::WhenRan.block_header_id(), None);
    assert_eq!(InstructionKind::RunBranch("b7".into()).block_header_id(), None);
}

#[test]
fn a_captured_key_lands_in_a_key_block_only() {
    let mut key = InstructionKind::Token(InputToken::Key("A".into(), Direction::Release));
    assert!(key.set_captured_key("F5".into()));
    assert_eq!(key, InstructionKind::Token(InputToken::Key("F5".into(), Direction::Release)));
    let mut button = InstructionKind::Token(InputToken::Button("Left".into(), Direction::Press));
    assert!(!button.set_captured_key("F5".into()));
    assert_eq!(button, InstructionKind::Token(InputToken::Button("Left".into(), Direction::Press)));
}
