use blockwork::macros::{ListDef, ListItem, Macro};
use blockwork::transfer::{ImportStaging, ImportStep};
use blockwork::instruction::{Instruction, InstructionKind};

fn list(name: &str) -> ListDef {
    ListDef { name: name.into(), items: vec![], editor_visible: false, editor_x: 0, editor_y: 0 }
}

fn mac() -> Macro {
    let mut m = Macro::new("M".into(), String::new(), vec![]);
    m.lists = vec![list("queue")];
    m
}

fn names(m: &Macro) -> Vec<&str> {
    m.lists.iter().map(|l| l.name.as_str()).collect()
}

#[test]
fn creating_a_list_trims_its_name() {
    let mut m = mac();
    assert_eq!(m.create_list("  scores "), Ok("scores".to_string()));
    assert_eq!(names(&m), vec!["queue", "scores"]);
    let l = &m.lists[1];
    assert!(l.items.is_empty() && !l.editor_visible);
    assert_eq!((l.editor_x, l.editor_y), (36, 36));
}

#[test]
fn creating_a_list_rejects_blank_and_taken_names() {
    let mut m = mac();
    assert_eq!(m.create_list("   "), Err("List name can't be empty".to_string()));
    assert_eq!(m.create_list(" queue"), Err("A list named \"queue\" already exists".to_string()));
    assert_eq!(names(&m), vec!["queue"]);
}

#[test]
fn renaming_a_list_checks_the_new_name() {
    let mut m = mac();
    m.lists.push(list("other"));
    assert_eq!(m.try_rename_list("queue", " "), Err("List name can't be empty".to_string()));
    assert_eq!(m.try_rename_list("queue", "other"), Err("A list named \"other\" already exists".to_string()));
    assert_eq!(m.try_rename_list("missing", "fresh"), Err("List not found".to_string()));
    assert_eq!(m.try_rename_list("queue", " queue "), Ok(false));
    assert_eq!(m.try_rename_list("queue", " jobs "), Ok(true));
    assert_eq!(names(&m), vec!["jobs", "other"]);
}

#[test]
fn renaming_a_list_renames_its_commands() {
    let mut m = mac();
    m.strands[0].instructions.push(Instruction {
        id: "a".into(),
        kind: InstructionKind::DeleteAllOfList { name: "queue".into() },
    });
    assert_eq!(m.try_rename_list("queue", "jobs"), Ok(true));
    assert_eq!(m.strands[0].instructions[1].kind, InstructionKind::DeleteAllOfList { name: "jobs".into() });
}

#[test]
fn deleting_a_list() {
    let mut m = mac();
    m.lists.push(list("other"));
    m.lists[0].items.push(ListItem::Text("x".into()));
    assert!(!m.delete_list("missing"));
    assert_eq!(names(&m), vec!["queue", "other"]);
    assert!(m.delete_list("queue"));
    assert_eq!(names(&m), vec!["other"]);
}

#[test]
fn an_import_without_anything_to_confirm_is_taken_in_at_once() {
    let mut staging = ImportStaging { pending: None };
    let m = Macro::new("Plain".into(), String::new(), vec![]);
    let old_id = m.id.clone();
    match staging.import_macro(m) {
        ImportStep::Commit(c) => {
            assert_eq!(c.name, "Plain");
            assert_ne!(c.id, old_id);
            assert_eq!(c.id.len(), 32);
        },
        ImportStep::Prompt(_) => panic!("no prompt expected"),
    }
    assert!(staging.pending.is_none());
}

#[test]
fn an_import_with_custom_settings_waits_for_the_user() {
    let mut staging = ImportStaging { pending: None };
    let mut m = Macro::new("Watcher".into(), String::new(), vec![]);
    m.settings.always_listen = true;
    match staging.import_macro(m) {
        ImportStep::Prompt(p) => {
            assert!(!p.needs_command_warning);
            assert_eq!(p.custom_settings.len(), 1);
            assert_eq!(p.custom_settings[0].key, "always_listen");
        },
        ImportStep::Commit(_) => panic!("a prompt was expected"),
    }
    assert!(staging.pending.is_some());
    let c = staging.confirm_import_macro(&vec![("always_listen".to_string(), false)]).unwrap();
    assert!(!c.settings.always_listen);
    assert_eq!(c.name, "Watcher");
    assert!(staging.pending.is_none());
    assert!(staging.confirm_import_macro(&vec![]).is_none());
}

#[test]
fn a_declined_import_is_dropped() {
    let mut staging = ImportStaging { pending: None };
    let mut m = Macro::new("Runner".into(), String::new(), vec![]);
    m.strands[0].instructions.push(Instruction { id: "c".into(), kind: InstructionKind::Command("ls".into()) });
    assert!(matches!(staging.import_macro(m), ImportStep::Prompt(p) if p.needs_command_warning));
    staging.cancel_import_macro();
    assert!(staging.pending.is_none());
}
