use blockwork::instruction::{InputToken, Instruction, InstructionKind, Strand};
use blockwork::macros::{ListDef, ListItem, Macro};
use blockwork::state::{Coordinate, MacroSettings};
use blockwork::value::{
    is_list_reporter, list_reporter_name_index, migrate_wait_duration, rename_list_in_value, Op, Value,
};

fn number(v: f64) -> Value {
    Value::Number { bits: v.to_bits() }
}

fn text(s: &str) -> Value {
    Value::Text { value: s.to_string() }
}

fn op(op: Op, args: Vec<Value>) -> Value {
    Value::Op { op, args, saved: Box::new(number(0.0)) }
}

fn ins(id: &str, kind: InstructionKind) -> Instruction {
    Instruction { id: id.to_string(), kind }
}

fn macro_with(strands: Vec<Strand>, lists: Vec<ListDef>) -> Macro {
    Macro {
        id: "m1".into(),
        name: "Test".into(),
        description: String::new(),
        strands,
        floating_values: vec![],
        comments: vec![],
        block_defs: vec![],
        recording_target: None,
        settings: MacroSettings { always_listen: false },
        lists,
    }
}

#[test]
fn list_reporters_are_known_by_name() {
    assert_eq!(list_reporter_name_index("ListItem"), Some(1));
    assert_eq!(list_reporter_name_index("ListLength"), Some(0));
    assert_eq!(list_reporter_name_index("Join"), None);
    assert!(is_list_reporter(&Op::Ext("ListContains".into())));
    assert!(!is_list_reporter(&Op::Ext("BatteryLevel".into())));
    assert!(!is_list_reporter(&Op::Builtin("ListItem".into())));
}

#[test]
fn renaming_a_list_rewrites_only_reporter_name_arguments() {
    let mut v = op(
        Op::Ext("ListItem".into()),
        vec![text("queue"), op(Op::Ext("ListLength".into()), vec![text("queue")])],
    );
    rename_list_in_value(&mut v, "queue", "jobs");
    assert_eq!(
        v,
        op(Op::Ext("ListItem".into()), vec![text("queue"), op(Op::Ext("ListLength".into()), vec![text("jobs")])])
    );
    let mut w = op(Op::Ext("ListItem".into()), vec![number(1.0), text("queue")]);
    rename_list_in_value(&mut w, "queue", "jobs");
    assert_eq!(w, op(Op::Ext("ListItem".into()), vec![number(1.0), text("jobs")]));
}

#[test]
fn renaming_reaches_into_call_arguments_and_saved_values() {
    let reporter = op(Op::Ext("ListIsEmpty".into()), vec![text("a")]);
    let mut v = Value::Call { block_id: "b1".into(), args: vec![reporter], saved: Box::new(text("a")) };
    rename_list_in_value(&mut v, "a", "b");
    let expected = Value::Call {
        block_id: "b1".into(),
        args: vec![op(Op::Ext("ListIsEmpty".into()), vec![text("b")])],
        saved: Box::new(text("a")),
    };
    assert_eq!(v, expected);
}

#[test]
fn legacy_wait_with_randomness_migrates_to_random_op() {
    let migrated = migrate_wait_duration(number(1000.0), number(50.0));
    let expected = Value::Op {
        op: Op::Random,
        args: vec![
            op(Op::Sub, vec![number(1000.0), number(50.0)]),
            op(Op::Add, vec![number(1000.0), number(50.0)]),
        ],
        saved: Box::new(number(0.0)),
    };
    assert_eq!(migrated, expected);
}

#[test]
fn legacy_wait_with_zero_randomness_migrates_to_plain_duration() {
    assert_eq!(migrate_wait_duration(number(1000.0), number(0.0)), number(1000.0));
    assert_eq!(migrate_wait_duration(number(250.0), number(-0.0)), number(250.0));
}

#[test]
fn detects_absolute_mouse_moves_in_nested_bodies() {
    let nested = ins(
        "i",
        InstructionKind::If {
            condition: Value::Bool,
            body: vec![ins("m", InstructionKind::Token(InputToken::MoveMouse(number(10.0), number(20.0), Coordinate::Abs)))],
        },
    );
    let mac = macro_with(
        vec![Strand { id: "s".into(), x: 0, y: 0, instructions: vec![ins("w", InstructionKind::WhenRan), nested] }],
        vec![],
    );
    assert!(mac.has_absolute_mouse_move());
    let relative = macro_with(
        vec![Strand {
            id: "s".into(),
            x: 0,
            y: 0,
            instructions: vec![ins("m", InstructionKind::Token(InputToken::MoveMouse(number(1.0), number(2.0), Coordinate::Rel)))],
        }],
        vec![],
    );
    assert!(!relative.has_absolute_mouse_move());
}

#[test]
fn renaming_a_declared_list_updates_its_references() {
    let list = ListDef { name: "queue".into(), items: vec![ListItem::Text("first".into())], editor_visible: false, editor_x: 0, editor_y: 0 };
    let add = ins("a", InstructionKind::AddToList { value: text("x"), name: "queue".into() });
    let mut mac = macro_with(vec![Strand { id: "s".into(), x: 0, y: 0, instructions: vec![add] }], vec![list]);
    mac.rename_list("queue", "jobs");
    assert_eq!(mac.lists[0].name, "jobs");
    assert_eq!(mac.strands[0].instructions[0].kind, InstructionKind::AddToList { value: text("x"), name: "jobs".into() });
    mac.rename_list("missing", "other");
    assert_eq!(mac.lists[0].name, "jobs");
}

#[test]
fn recording_target_prefers_the_explicit_strand_then_a_header() {
    let plain = Strand { id: "p".into(), x: 0, y: 0, instructions: vec![] };
    let header = Strand { id: "h".into(), x: 0, y: 0, instructions: vec![ins("w", InstructionKind::WhenRan)] };
    let mut mac = macro_with(vec![plain, header], vec![]);
    assert_eq!(mac.recording_target_id(), Some("h".to_string()));
    mac.recording_target = Some("p".into());
    assert_eq!(mac.recording_target_id(), Some("p".to_string()));
    mac.recording_target = Some("gone".into());
    assert_eq!(mac.recording_target_id(), Some("h".to_string()));
    let empty = macro_with(vec![], vec![]);
    assert_eq!(empty.recording_target_id(), None);
}
