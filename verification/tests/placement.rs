use blockwork::instruction::{check_loop_control_placement, Instruction, InstructionKind, PathStep, Strand};
use blockwork::instruction::InputToken;
use blockwork::macros::{check_drop_placement, check_return_placement, needs_absolute_mouse, BlockDef, BlockShape, Macro};
use blockwork::state::Coordinate;
use blockwork::state::MacroSettings;
use blockwork::value::Value;

fn ins(id: &str, kind: InstructionKind) -> Instruction {
    Instruction { id: id.to_string(), kind }
}

fn strand_with(instructions: Vec<Instruction>) -> Strand {
    Strand { id: "s1".into(), x: 0, y: 0, instructions }
}

fn number(v: f64) -> Value {
    Value::Number { bits: v.to_bits() }
}

#[test]
fn non_loop_control_instructions_are_always_allowed() {
    let strand = strand_with(vec![ins("a", InstructionKind::WhenRan)]);
    assert!(check_loop_control_placement(
        &strand,
        &[PathStep { index: 1, slot: None }],
        &ins("b", InstructionKind::Comment("x".into()))
    )
    .is_ok());
}

#[test]
fn escape_loop_at_strand_top_level_is_rejected() {
    let strand = strand_with(vec![ins("a", InstructionKind::WhenRan)]);
    let path = vec![PathStep { index: 1, slot: None }];
    assert!(check_loop_control_placement(&strand, &path, &ins("b", InstructionKind::EscapeLoop)).is_err());
}

#[test]
fn escape_loop_directly_inside_repeat_body_is_allowed() {
    let strand = strand_with(vec![
        ins("a", InstructionKind::WhenRan),
        ins("b", InstructionKind::Repeat { count: number(3.0), body: vec![] }),
    ]);
    let path = vec![PathStep { index: 1, slot: Some(0) }, PathStep { index: 0, slot: None }];
    assert!(check_loop_control_placement(&strand, &path, &ins("c", InstructionKind::ContinueLoop)).is_ok());
}

#[test]
fn escape_loop_inside_if_inside_while_is_allowed() {
    let strand = strand_with(vec![
        ins("a", InstructionKind::WhenRan),
        ins(
            "b",
            InstructionKind::While {
                condition: Value::Bool,
                body: vec![ins("c", InstructionKind::If { condition: Value::Bool, body: vec![] })],
            },
        ),
    ]);
    let path = vec![
        PathStep { index: 1, slot: Some(0) },
        PathStep { index: 0, slot: Some(0) },
        PathStep { index: 0, slot: None },
    ];
    assert!(check_loop_control_placement(&strand, &path, &ins("d", InstructionKind::EscapeLoop)).is_ok());
}

#[test]
fn escape_loop_inside_if_with_no_enclosing_loop_is_rejected() {
    let strand = strand_with(vec![
        ins("a", InstructionKind::WhenRan),
        ins("b", InstructionKind::If { condition: Value::Bool, body: vec![] }),
    ]);
    let path = vec![PathStep { index: 1, slot: Some(0) }, PathStep { index: 0, slot: None }];
    let r = check_loop_control_placement(&strand, &path, &ins("c", InstructionKind::EscapeLoop));
    assert_eq!(
        r,
        Err("An Escape Loop/Continue Loop block can only be used inside a Repeat/Forever/While loop".to_string())
    );
}

fn macro_with(strands: Vec<Strand>, block_defs: Vec<BlockDef>) -> Macro {
    Macro {
        id: "m1".into(),
        name: "Test".into(),
        description: String::new(),
        strands,
        floating_values: vec![],
        comments: vec![],
        block_defs,
        recording_target: None,
        settings: MacroSettings { always_listen: false },
        lists: vec![],
    }
}

#[test]
fn return_is_allowed_only_in_a_value_returning_block_body() {
    let returning = BlockDef { id: "b1".into(), shape: BlockShape::ReturnsValue, color: "#FFAA00".into(), inputs: vec![] };
    let plain = BlockDef { id: "b2".into(), shape: BlockShape::Normal, color: "#FFAA00".into(), inputs: vec![] };
    let body_of = |block: &str| {
        Strand {
            id: format!("s-{block}"),
            x: 0,
            y: 0,
            instructions: vec![ins("h", InstructionKind::BlockHeader(block.to_string()))],
        }
    };
    let mac = macro_with(vec![body_of("b1"), body_of("b2")], vec![returning, plain]);
    let ret = ins("r", InstructionKind::Return(number(1.0)));
    assert!(check_return_placement(&mac, &mac.strands[0], &ret).is_ok());
    assert!(check_return_placement(&mac, &mac.strands[1], &ret).is_err());
    let when_ran = strand_with(vec![ins("w", InstructionKind::WhenRan)]);
    assert!(check_return_placement(&mac, &when_ran, &ret).is_err());
    assert!(check_return_placement(&mac, &when_ran, &ins("c", InstructionKind::Comment("x".into()))).is_ok());
}

#[test]
fn a_drop_is_checked_against_the_strand_it_lands_on() {
    let returning = BlockDef { id: "b1".into(), shape: BlockShape::ReturnsValue, color: "#FFAA00".into(), inputs: vec![] };
    let body = Strand {
        id: "body".into(),
        x: 0,
        y: 0,
        instructions: vec![
            ins("h", InstructionKind::BlockHeader("b1".into())),
            ins("f", InstructionKind::Forever { body: vec![] }),
        ],
    };
    let main = Strand { id: "main".into(), x: 0, y: 0, instructions: vec![ins("w", InstructionKind::WhenRan)] };
    let mac = macro_with(vec![body, main], vec![returning]);
    let ret = ins("r", InstructionKind::Return(number(1.0)));
    let esc = ins("e", InstructionKind::EscapeLoop);
    let top = [PathStep { index: 1, slot: None }];
    let in_loop = [PathStep { index: 1, slot: Some(0) }, PathStep { index: 0, slot: None }];
    assert!(check_drop_placement(&mac, "body", &top, &ret).is_ok());
    assert_eq!(
        check_drop_placement(&mac, "main", &top, &ret),
        Err("A Return block can only be used inside a custom block that returns a value".to_string())
    );
    assert!(check_drop_placement(&mac, "body", &in_loop, &esc).is_ok());
    assert_eq!(
        check_drop_placement(&mac, "main", &top, &esc),
        Err("An Escape Loop/Continue Loop block can only be used inside a Repeat/Forever/While loop".to_string())
    );
    assert!(check_drop_placement(&mac, "nowhere", &top, &ret).is_ok());
}

#[test]
fn only_absolute_moves_need_absolute_positions() {
    let abs = ins("m", InstructionKind::Token(InputToken::MoveMouse(number(1.0), number(2.0), Coordinate::Abs)));
    let rel = ins("m", InstructionKind::Token(InputToken::MoveMouse(number(1.0), number(2.0), Coordinate::Rel)));
    assert!(needs_absolute_mouse(&abs));
    assert!(!needs_absolute_mouse(&rel));
    assert!(!needs_absolute_mouse(&ins("w", InstructionKind::WhenRan)));
}
