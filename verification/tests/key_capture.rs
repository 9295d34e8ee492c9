use blockwork::instruction::{InputToken, Instruction, InstructionKind, PathStep, Strand};
use blockwork::macros::Macro;
use blockwork::state::Direction;
use blockwork::value::Value;

fn ins(id: &str, kind: InstructionKind) -> Instruction {
    Instruction { id: id.to_string(), kind }
}

fn key(name: &str) -> InstructionKind {
    InstructionKind::Token(InputToken::Key(name.into(), Direction::Press))
}

fn step(index: usize, slot: Option<u8>) -> PathStep {
    PathStep { index, slot }
}

fn canvas() -> Macro {
    let mut mac = Macro::new("T".into(), "".into(), vec![]);
    mac.strands.push(Strand {
        id: "s".into(),
        x: 5,
        y: 6,
        instructions: vec![
            ins("k", key("A")),
            ins("if", InstructionKind::If { condition: Value::Bool, body: vec![ins("w", InstructionKind::WhenRan), ins("k2", key("B"))] }),
        ],
    });
    mac
}

#[test]
fn a_captured_key_replaces_the_key_of_a_top_level_block() {
    let mut mac = canvas();
    assert!(mac.set_key_at("s", &[step(0, None)], "F1".into()));
    assert_eq!(mac.strands[1].instructions[0], ins("k", key("F1")));
}

#[test]
fn a_captured_key_reaches_into_a_nested_body() {
    let mut mac = canvas();
    assert!(mac.set_key_at("s", &[step(1, Some(0)), step(1, None)], "Enter".into()));
    match &mac.strands[1].instructions[1].kind {
        InstructionKind::If { body, .. } => assert_eq!(body[1], ins("k2", key("Enter"))),
        other => panic!("expected If, got {other:?}"),
    }
}

#[test]
fn a_path_that_misses_a_key_block_changes_nothing() {
    let mut mac = canvas();
    let before = canvas_strands(&mac);
    assert!(!mac.set_key_at("s", &[step(1, None)], "X".into()));
    assert!(!mac.set_key_at("s", &[step(1, Some(0)), step(0, None)], "X".into()));
    assert!(!mac.set_key_at("s", &[step(1, Some(1)), step(1, None)], "X".into()));
    assert!(!mac.set_key_at("s", &[step(9, None)], "X".into()));
    assert!(!mac.set_key_at("missing", &[step(0, None)], "X".into()));
    assert!(!mac.set_key_at("s", &[], "X".into()));
    assert_eq!(canvas_strands(&mac), before);
}

fn canvas_strands(mac: &Macro) -> String {
    format!("{:?}", mac.strands)
}
