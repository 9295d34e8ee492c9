use blockwork::instruction::{Instruction, InstructionKind, Strand};
use blockwork::legacy::{count_comments, notes_fit_in_file, upgrade_legacy_root, MacroFile};
use blockwork::macros::{BlockDef, BlockShape, Macro};
use blockwork::state::MacroSettings;
use blockwork::value::Value;
use std::collections::hash_map::DefaultHasher;
use std::hash::{Hash, Hasher};

fn ins(id: &str, kind: InstructionKind) -> Instruction {
    Instruction { id: id.to_string(), kind }
}

fn comment(id: &str, text: &str) -> Instruction {
    ins(id, InstructionKind::Comment(text.to_string()))
}

fn strand(id: &str, x: i32, y: i32, instructions: Vec<Instruction>) -> Strand {
    Strand { id: id.to_string(), x, y, instructions }
}

fn current(strands: Vec<Strand>) -> MacroFile {
    MacroFile::Current {
        id: "m1".into(),
        name: "Old".into(),
        description: String::new(),
        strands,
        recording_target: None,
        floating_values: vec![],
        comments: vec![],
        block_defs: vec![],
        settings: MacroSettings { always_listen: false },
        lists: vec![],
    }
}

fn load(file: MacroFile) -> Macro {
    assert!(notes_fit_in_file(&file));
    Macro::from_file(file)
}

fn find<'a>(mac: &'a Macro, id: &str) -> &'a Strand {
    mac.strands.iter().find(|s| s.id == id).unwrap()
}

fn kinds(list: &[Instruction]) -> Vec<&InstructionKind> {
    list.iter().map(|i| &i.kind).collect()
}

fn is_fresh(id: &str) -> bool {
    id.len() == 32 && id.chars().all(|c| c.is_ascii_digit() || ('a'..='f').contains(&c))
}

#[test]
fn legacy_flat_code_migrates_to_when_ran_strand() {
    let file = MacroFile::Legacy {
        id: "m0".into(),
        name: "Old".into(),
        description: String::new(),
        code: vec![comment("c1", "hi")],
    };
    let mac = load(file);
    assert_eq!(mac.strands.len(), 1);
    // The legacy inline comment is pulled out into a free-standing note.
    assert_eq!(kinds(&mac.strands[0].instructions), vec![&InstructionKind::WhenRan]);
    assert_eq!(mac.comments.len(), 1);
    assert_eq!(mac.comments[0].text, "hi");
    assert_eq!(mac.comments[0].attached_to, None);
    assert_eq!((mac.comments[0].x, mac.comments[0].y), (40, 40));
    assert!(is_fresh(&mac.strands[0].id));
    assert_eq!((mac.strands[0].x, mac.strands[0].y), (0, 0));
    assert_eq!(mac.name, "Old");
}

#[test]
fn legacy_root_strand_gains_when_ran_on_load() {
    let file = current(vec![strand("root", 0, 0, vec![comment("c1", "hi")]), strand("stray", 10, 10, vec![])]);
    let mac = load(file);
    let root = find(&mac, "root");
    assert_eq!(kinds(&root.instructions), vec![&InstructionKind::WhenRan]);
    assert!(is_fresh(&root.instructions[0].id));
    assert_eq!(mac.comments.len(), 1);
    assert_eq!(mac.comments[0].text, "hi");
    // Untouched, non-entry strand survives as-is.
    assert!(find(&mac, "stray").instructions.is_empty());
}

#[test]
fn already_migrated_root_strand_is_not_double_prepended() {
    let file = current(vec![strand(
        "root",
        0,
        0,
        vec![ins("w", InstructionKind::WhenRan), comment("c1", "hi")],
    )]);
    let mac = load(file);
    let root = find(&mac, "root");
    assert_eq!(kinds(&root.instructions), vec![&InstructionKind::WhenRan]);
    assert_eq!(root.instructions[0].id, "w");
    assert_eq!(mac.comments.len(), 1);
    assert_eq!(mac.comments[0].text, "hi");
}

#[test]
fn migrate_legacy_comments_reaches_into_nested_if_body() {
    let file = current(vec![strand(
        "root",
        0,
        0,
        vec![
            ins("w", InstructionKind::WhenRan),
            ins("if", InstructionKind::If { condition: Value::Bool, body: vec![comment("c1", "nested")] }),
        ],
    )]);
    let mac = load(file);
    let root = find(&mac, "root");
    match &root.instructions[1].kind {
        InstructionKind::If { body, .. } => assert!(body.is_empty(), "nested comment should be extracted"),
        other => panic!("expected If, got {other:?}"),
    }
    assert_eq!(mac.comments.len(), 1);
    assert_eq!(mac.comments[0].text, "nested");
    assert_eq!(mac.comments[0].attached_to, None);
}

#[test]
fn notes_stack_below_their_strand_in_order() {
    let file = current(vec![strand(
        "s",
        100,
        200,
        vec![
            comment("a", "first"),
            ins("f", InstructionKind::Forever { body: vec![comment("b", "second")] }),
            comment("c", "third"),
        ],
    )]);
    let mac = load(file);
    let notes: Vec<(i32, i32, &str)> = mac.comments.iter().map(|c| (c.x, c.y, c.text.as_str())).collect();
    assert_eq!(notes, vec![(140, 240, "first"), (140, 270, "second"), (140, 300, "third")]);
    let s = find(&mac, "s");
    assert_eq!(s.instructions.len(), 1);
    assert_eq!(s.instructions[0].id, "f");
}

#[test]
fn only_the_first_two_branches_of_a_block_call_are_migrated() {
    let call = InstructionKind::CallBlock {
        block_id: "b".into(),
        args: vec![],
        branches: vec![vec![comment("a", "one")], vec![comment("b", "two")], vec![comment("c", "three")]],
    };
    let mut body = vec![ins("call", call)];
    assert_eq!(count_comments(&body), Some(2));
    let mut out = Vec::new();
    blockwork::legacy::extract_comments(&mut body, &mut out);
    assert_eq!(out, vec!["one".to_string(), "two".to_string()]);
    match &body[0].kind {
        InstructionKind::CallBlock { branches, .. } => {
            assert!(branches[0].is_empty());
            assert!(branches[1].is_empty());
            assert_eq!(branches[2].len(), 1);
        },
        other => panic!("expected CallBlock, got {other:?}"),
    }
}

#[test]
fn a_root_strand_with_a_header_is_left_alone() {
    let mut strands = vec![strand("root", 0, 0, vec![ins("w", InstructionKind::WhenRan)])];
    upgrade_legacy_root(&mut strands);
    assert_eq!(strands[0].instructions.len(), 1);
    assert_eq!(strands[0].instructions[0].id, "w");
}

#[test]
fn notes_past_the_coordinate_range_are_reported() {
    let file = current(vec![strand("s", i32::MAX - 10, 0, vec![comment("a", "x")])]);
    assert!(!notes_fit_in_file(&file));
    let fine = current(vec![strand("s", i32::MAX - 10, 0, vec![])]);
    assert!(notes_fit_in_file(&fine));
}

#[test]
fn body_mut_addresses_if_and_if_else_slots() {
    let one = Value::Number { bits: 1.0f64.to_bits() };
    let mut if_ins = InstructionKind::If { condition: Value::Number { bits: 1.0f64.to_bits() }, body: vec![comment("a", "a")] };
    assert_eq!(if_ins.body_mut(0), Some(&mut vec![comment("a", "a")]));
    assert_eq!(if_ins.body_mut(1), None);

    let mut if_else = InstructionKind::IfElse {
        condition: one,
        then_body: vec![comment("t", "then")],
        else_body: vec![comment("e", "else")],
    };
    assert_eq!(if_else.body_mut(0), Some(&mut vec![comment("t", "then")]));
    assert_eq!(if_else.body_mut(1), Some(&mut vec![comment("e", "else")]));
    assert_eq!(if_else.body_mut(2), None);
}

#[test]
fn body_mut_addresses_loop_slots() {
    let mut repeat = InstructionKind::Repeat { count: Value::Number { bits: 3.0f64.to_bits() }, body: vec![comment("a", "a")] };
    assert_eq!(repeat.body_mut(0), Some(&mut vec![comment("a", "a")]));
    assert_eq!(repeat.body_mut(1), None);

    let mut forever = InstructionKind::Forever { body: vec![comment("b", "b")] };
    assert_eq!(forever.body_mut(0), Some(&mut vec![comment("b", "b")]));

    let mut while_ins = InstructionKind::While { condition: Value::Bool, body: vec![comment("c", "c")] };
    assert_eq!(while_ins.body_mut(0), Some(&mut vec![comment("c", "c")]));

    assert_eq!(InstructionKind::EscapeLoop.body_mut(0), None);
    assert_eq!(InstructionKind::ContinueLoop.body_mut(0), None);
}

#[test]
fn body_mut_edits_in_place() {
    let mut forever = InstructionKind::Forever { body: vec![] };
    forever.body_mut(0).unwrap().push(ins("x", InstructionKind::EscapeLoop));
    match forever {
        InstructionKind::Forever { body } => assert_eq!(body.len(), 1),
        _ => unreachable!(),
    }
}

#[test]
fn equal_instructions_hash_alike() {
    let hash = |k: &InstructionKind| {
        let mut h = DefaultHasher::new();
        k.hash(&mut h);
        h.finish()
    };
    let a = InstructionKind::Wait(Value::Number { bits: 1.5f64.to_bits() });
    let b = InstructionKind::Wait(Value::Number { bits: 1.5f64.to_bits() });
    assert_eq!(a, b);
    assert_eq!(hash(&a), hash(&b));
    let set: std::collections::HashSet<InstructionKind> = vec![a, b, InstructionKind::EscapeLoop].into_iter().collect();
    assert_eq!(set.len(), 2);
}

const FALLBACK_COLOR: &str = "#4C97FF";

fn with_block_color(color: &str) -> MacroFile {
    MacroFile::Current {
        id: "m1".into(),
        name: "Test".into(),
        description: String::new(),
        strands: vec![],
        recording_target: None,
        floating_values: vec![],
        comments: vec![],
        block_defs: vec![BlockDef { id: "b1".into(), shape: BlockShape::Normal, color: color.into(), inputs: vec![] }],
        settings: MacroSettings { always_listen: false },
        lists: vec![],
    }
}

#[test]
fn block_def_color_is_normalized_when_loading_a_macro() {
    let mut mac = load(with_block_color("#beef00"));
    mac.normalize_block_colors(FALLBACK_COLOR);
    assert_eq!(mac.block_defs[0].color, "#BEEF00");
}

#[test]
fn block_def_color_falls_back_when_loading_an_invalid_color() {
    let mut mac = load(with_block_color("not a color"));
    mac.normalize_block_colors(FALLBACK_COLOR);
    assert_eq!(mac.block_defs[0].color, FALLBACK_COLOR);
    assert_eq!(mac.block_defs[0].id, "b1");
}
