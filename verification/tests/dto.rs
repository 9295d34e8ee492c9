use blockwork::dto::{dto_to_instruction, instruction_to_dto, strand_to_dto, InstructionDto};
use blockwork::instruction::{InputToken, Instruction, InstructionKind, Strand};
use blockwork::state::{Axis, Coordinate, Direction};
use blockwork::value::{Op, Value};

fn ins(id: &str, kind: InstructionKind) -> Instruction {
    Instruction { id: id.to_string(), kind }
}

fn number(v: f64) -> Value {
    Value::Number { bits: v.to_bits() }
}

fn sample() -> Instruction {
    ins(
        "r",
        InstructionKind::Repeat {
            count: number(3.0),
            body: vec![
                ins("k", InstructionKind::Token(InputToken::Key("A".into(), Direction::Press))),
                ins("b", InstructionKind::Token(InputToken::Button("Left".into(), Direction::Release))),
                ins("m", InstructionKind::Token(InputToken::MoveMouse(number(1.0), number(2.0), Coordinate::Rel))),
                ins("s", InstructionKind::Token(InputToken::Scroll(number(-3.0), Axis::Horizontal))),
                ins(
                    "ie",
                    InstructionKind::IfElse {
                        condition: Value::Bool,
                        then_body: vec![ins("o", InstructionKind::OpenApp { command: "app".into(), name: "App".into(), icon: Some("data:x".into()) })],
                        else_body: vec![ins("e", InstructionKind::EscapeLoop)],
                    },
                ),
                ins(
                    "c",
                    InstructionKind::CallBlock {
                        block_id: "b1".into(),
                        args: vec![Value::Op { op: Op::Add, args: vec![number(1.0), number(2.0)], saved: Box::new(number(0.0)) }],
                        branches: vec![],
                    },
                ),
            ],
        },
    )
}

#[test]
fn instructions_round_trip_through_their_wire_shape() {
    let i = sample();
    let d = instruction_to_dto(&i).unwrap();
    assert_eq!(dto_to_instruction(&d, &known_keys(), &button_names()).unwrap(), i);
}

#[test]
fn names_travel_for_directions_modes_and_axes() {
    let d = instruction_to_dto(&ins("k", InstructionKind::Token(InputToken::Key("Enter".into(), Direction::Click)))).unwrap();
    match d {
        InstructionDto::Key { id, key, direction } => assert_eq!((id.as_str(), key.as_str(), direction.as_str()), ("k", "Enter", "Click")),
        _ => panic!("expected a key"),
    }
    let back = dto_to_instruction(&InstructionDto::Scroll { id: "s".into(), amount: number(1.0), axis: "sideways".into() }, &known_keys(), &button_names()).unwrap();
    assert_eq!(back.kind, InstructionKind::Token(InputToken::Scroll(number(1.0), Axis::Vertical)));
}

#[test]
fn list_and_clipboard_blocks_have_no_wire_shape() {
    assert!(instruction_to_dto(&ins("l", InstructionKind::ReverseList { name: "q".into() })).is_none());
    let nested = ins("f", InstructionKind::Forever { body: vec![ins("c", InstructionKind::WhenClipboardChanged)] });
    assert!(instruction_to_dto(&nested).is_none());
}

#[test]
fn call_branches_are_dropped_on_the_wire() {
    let call = ins(
        "c",
        InstructionKind::CallBlock { block_id: "b".into(), args: vec![], branches: vec![vec![ins("w", InstructionKind::WhenRan)]] },
    );
    let back = dto_to_instruction(&instruction_to_dto(&call).unwrap(), &known_keys(), &button_names()).unwrap();
    assert_eq!(back.kind, InstructionKind::CallBlock { block_id: "b".into(), args: vec![], branches: vec![] });
}

#[test]
fn strands_keep_position_and_order() {
    let strand = Strand { id: "s1".into(), x: 5, y: -7, instructions: vec![ins("w", InstructionKind::WhenRan), sample()] };
    let d = strand_to_dto(&strand).unwrap();
    assert_eq!((d.id.as_str(), d.x, d.y, d.instructions.len()), ("s1", 5, -7, 2));
}

fn button_names() -> Vec<String> {
    vec!["Left".to_string(), "Right".to_string(), "Middle".to_string()]
}

fn known_keys() -> Vec<String> {
    vec!["A".to_string(), "Enter".to_string(), "F5".to_string()]
}

#[test]
fn an_unknown_key_anywhere_fails_the_whole_conversion() {
    let key = |name: &str| InstructionDto::Key { id: "k".into(), key: name.into(), direction: "Press".into() };
    assert!(dto_to_instruction(&key("A"), &known_keys(), &button_names()).is_some());
    assert!(dto_to_instruction(&key("NoSuchKey"), &known_keys(), &button_names()).is_none());
    let nested = |name: &str| InstructionDto::Repeat {
        id: "r".into(),
        count: number(2.0),
        body: vec![InstructionDto::WhenRan { id: "w".into() }, key(name)],
    };
    assert!(dto_to_instruction(&nested("NoSuchKey"), &known_keys(), &button_names()).is_none());
    let ok = dto_to_instruction(&nested("F5"), &known_keys(), &button_names()).unwrap();
    match ok.kind {
        InstructionKind::Repeat { body, .. } => {
            assert_eq!(body.len(), 2);
            assert_eq!(body[1].kind, InstructionKind::Token(InputToken::Key("F5".into(), Direction::Press)));
        }
        other => panic!("expected Repeat, got {other:?}"),
    }
}

#[test]
fn an_unknown_button_reads_as_the_first_button() {
    let button = |name: &str| InstructionDto::Button { id: "b".into(), button: name.into(), direction: "Click".into() };
    let right = dto_to_instruction(&button("Right"), &known_keys(), &button_names()).unwrap();
    assert_eq!(right.kind, InstructionKind::Token(InputToken::Button("Right".into(), Direction::Click)));
    let odd = dto_to_instruction(&button("Thumb9"), &known_keys(), &button_names()).unwrap();
    assert_eq!(odd.kind, InstructionKind::Token(InputToken::Button("Left".into(), Direction::Click)));
}
