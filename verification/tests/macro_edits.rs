use blockwork::instruction::{Instruction, InstructionKind, Strand};
use blockwork::macros::{Evaluated, ListDef, ListItem, Macro};
use blockwork::state::MacroSettings;

fn ins(id: &str, kind: InstructionKind) -> Instruction {
    Instruction { id: id.to_string(), kind }
}

fn is_fresh(id: &str) -> bool {
    id.len() == 32 && id.chars().all(|c| c.is_ascii_digit() || ('a'..='f').contains(&c))
}

#[test]
fn new_macro_defaults_to_one_when_ran_strand() {
    let mac = Macro::new("Test".into(), "".into(), vec![]);
    assert_eq!(mac.strands.len(), 1);
    assert!(mac.strands[0].starts_with_header());
    assert_eq!(mac.strands[0].instructions[0].kind, InstructionKind::WhenRan);
    assert!(is_fresh(&mac.id));
    assert_eq!(mac.settings, MacroSettings { always_listen: false });
}

#[test]
fn new_macro_keeps_its_code_after_the_header() {
    let mac = Macro::new("T".into(), "d".into(), vec![ins("c", InstructionKind::Comment("x".into()))]);
    assert_eq!(mac.strands[0].instructions.len(), 2);
    assert_eq!(mac.strands[0].instructions[1], ins("c", InstructionKind::Comment("x".into())));
    assert_eq!((mac.strands[0].x, mac.strands[0].y), (0, 0));
    assert_ne!(mac.id, mac.strands[0].id);
}

#[test]
fn blank_ids_are_replaced() {
    let mut mac = Macro::new("T".into(), "".into(), vec![]);
    mac.id = "  \t".into();
    mac.ensure_id();
    assert!(is_fresh(&mac.id));
    mac.id = "keep-me".into();
    mac.ensure_id();
    assert_eq!(mac.id, "keep-me");
}

#[test]
fn branch_callbacks_are_renamed_inside_the_block_body_only() {
    let body = Strand {
        id: "body".into(),
        x: 0,
        y: 0,
        instructions: vec![
            ins("h", InstructionKind::BlockHeader("b1".into())),
            ins("r", InstructionKind::RunBranch("then".into())),
            ins(
                "i",
                InstructionKind::If {
                    condition: blockwork::value::Value::Bool,
                    body: vec![ins("r2", InstructionKind::RunBranch("then".into())), ins("r3", InstructionKind::RunBranch("else".into()))],
                },
            ),
        ],
    };
    let other = Strand { id: "other".into(), x: 0, y: 0, instructions: vec![ins("r4", InstructionKind::RunBranch("then".into()))] };
    let mut mac = Macro::new("T".into(), "".into(), vec![]);
    mac.strands = vec![other, body];
    mac.rename_block_branch_body("b1", "then", "yes");
    assert_eq!(mac.strands[1].instructions[1].kind, InstructionKind::RunBranch("yes".into()));
    match &mac.strands[1].instructions[2].kind {
        InstructionKind::If { body, .. } => {
            assert_eq!(body[0].kind, InstructionKind::RunBranch("yes".into()));
            assert_eq!(body[1].kind, InstructionKind::RunBranch("else".into()));
        }
        _ => panic!("expected the If block"),
    }
    assert_eq!(mac.strands[0].instructions[0].kind, InstructionKind::RunBranch("then".into()));
    mac.rename_block_branch_body("missing", "yes", "no");
    assert_eq!(mac.strands[1].instructions[1].kind, InstructionKind::RunBranch("yes".into()));
}

#[test]
fn run_results_are_written_back_into_declared_lists() {
    let mut mac = Macro::new("T".into(), "".into(), vec![]);
    mac.lists = vec![
        ListDef { name: "a".into(), items: vec![ListItem::Text("old".into())], editor_visible: true, editor_x: 3, editor_y: 4 },
        ListDef { name: "b".into(), items: vec![], editor_visible: false, editor_x: 0, editor_y: 0 },
    ];
    let values = vec![("a".to_string(), vec![ListItem::Number(2.0f64.to_bits()), ListItem::Text("new".into())])];
    mac.sync_lists_from(&values);
    assert_eq!(mac.lists[0].items, vec![ListItem::Number(2.0f64.to_bits()), ListItem::Text("new".into())]);
    assert!(mac.lists[0].editor_visible);
    assert!(mac.lists[1].items.is_empty());
}

#[test]
fn list_items_hold_numbers_and_texts_only() {
    assert_eq!(ListItem::from_evaluated(Evaluated::Number(7)), Some(ListItem::Number(7)));
    assert_eq!(ListItem::from_evaluated(Evaluated::Text("t".into())), Some(ListItem::Text("t".into())));
    assert_eq!(ListItem::from_evaluated(Evaluated::Bool(true)), None);
    assert_eq!(ListItem::Text("t".into()).evaluated(), Evaluated::Text("t".into()));
}

#[test]
fn recorded_input_goes_to_the_target_strand() {
    let mut mac = Macro::new("T".into(), "".into(), vec![]);
    let header_id = mac.strands[0].id.clone();
    mac.strands.insert(0, Strand { id: "plain".into(), x: 0, y: 0, instructions: vec![] });
    mac.recording_target_mut().instructions.push(ins("k", InstructionKind::Comment("rec".into())));
    assert_eq!(mac.strands[1].id, header_id);
    assert_eq!(mac.strands[1].instructions.len(), 2);
    mac.recording_target = Some("plain".into());
    mac.recording_target_mut().instructions.push(ins("k2", InstructionKind::Comment("rec".into())));
    assert_eq!(mac.strands[0].instructions.len(), 1);
    mac.strands.clear();
    let s = mac.recording_target_mut();
    assert!(s.instructions.is_empty());
    assert_eq!(mac.strands.len(), 1);
}

#[test]
fn only_an_existing_strand_can_be_chosen_as_recording_target() {
    let mut mac = Macro::new("T".into(), "".into(), vec![]);
    let header_id = mac.strands[0].id.clone();
    mac.strands.push(Strand { id: "plain".into(), x: 0, y: 0, instructions: vec![] });
    assert_eq!(mac.recording_target_id(), Some(header_id.clone()));
    assert!(!mac.set_recording_target("missing".into()));
    assert_eq!(mac.recording_target, None);
    assert!(mac.set_recording_target("plain".into()));
    assert_eq!(mac.recording_target, Some("plain".to_string()));
    assert_eq!(mac.recording_target_id(), Some("plain".to_string()));
}

#[test]
fn recording_falls_back_to_the_first_when_ran_strand() {
    let mut mac = Macro::new("T".into(), "".into(), vec![]);
    let when_ran = mac.strands[0].id.clone();
    mac.strands.insert(
        0,
        Strand { id: "block".into(), x: 0, y: 0, instructions: vec![ins("h", InstructionKind::BlockHeader("b1".into()))] },
    );
    assert_eq!(mac.recording_target_id(), Some(when_ran.clone()));
    assert_eq!(mac.recording_target_mut().id, when_ran);
    assert_eq!(mac.strands.len(), 2);
}
