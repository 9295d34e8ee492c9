use blockwork::instruction::{Instruction, InstructionKind, Strand};
use blockwork::macros::Macro;
use blockwork::state::MacroSettings;
use blockwork::transfer::{
    apply_setting_overrides, export_macro_file_name, import_prompt, macro_contains_command,
    non_default_macro_settings, normalize_block_color, sanitize_filename,
};
use blockwork::value::Value;

fn ins(id: &str, kind: InstructionKind) -> Instruction {
    Instruction { id: id.to_string(), kind }
}

fn macro_named(id: &str, name: &str, instructions: Vec<Instruction>, always_listen: bool) -> Macro {
    Macro {
        id: id.into(),
        name: name.into(),
        description: String::new(),
        strands: vec![Strand { id: "s".into(), x: 0, y: 0, instructions }],
        floating_values: vec![],
        comments: vec![],
        block_defs: vec![],
        recording_target: None,
        settings: MacroSettings { always_listen },
        lists: vec![],
    }
}

#[test]
fn file_names_lose_illegal_characters() {
    assert_eq!(sanitize_filename("a/b\\c:d*e?f\"g<h>i|j"), "a_b_c_d_e_f_g_h_i_j");
    assert_eq!(sanitize_filename("  My Macro  "), "My Macro");
    assert_eq!(sanitize_filename("   "), "macro");
    assert_eq!(sanitize_filename(""), "macro");
}

#[test]
fn export_file_name_comes_from_the_macro_name() {
    let macros = vec![macro_named("m1", "Daily: report", vec![], false), macro_named("m2", "Other", vec![], false)];
    assert_eq!(export_macro_file_name("m1", &macros), Ok("Daily_ report.macro".to_string()));
    assert_eq!(export_macro_file_name("nope", &macros), Err("Macro not found".to_string()));
}

#[test]
fn commands_anywhere_in_a_macro_need_a_warning() {
    let nested = ins(
        "r",
        InstructionKind::Repeat {
            count: Value::Bool,
            body: vec![ins("o", InstructionKind::OpenApp { command: "x".into(), name: "X".into(), icon: None })],
        },
    );
    assert!(macro_contains_command(&macro_named("m", "M", vec![nested], false)));
    assert!(!macro_contains_command(&macro_named("m", "M", vec![ins("c", InstructionKind::Comment("hi".into()))], false)));
}

#[test]
fn import_review_lists_changed_settings() {
    let quiet = macro_named("m", "M", vec![], false);
    assert!(non_default_macro_settings(&quiet.settings).is_empty());
    assert!(import_prompt(&quiet).is_none());

    let listening = macro_named("m", "M", vec![], true);
    let settings = non_default_macro_settings(&listening.settings);
    assert_eq!(settings.len(), 1);
    assert_eq!(settings[0].key, "always_listen");
    assert_eq!(settings[0].label, "Always listen for events, even when a different macro is selected");
    assert!(settings[0].enabled);
    let prompt = import_prompt(&listening).unwrap();
    assert!(!prompt.needs_command_warning);
    assert_eq!(prompt.custom_settings.len(), 1);

    let runs = macro_named("m", "M", vec![ins("c", InstructionKind::Command("rm -rf /tmp/x".into()))], false);
    let prompt = import_prompt(&runs).unwrap();
    assert!(prompt.needs_command_warning);
    assert!(prompt.custom_settings.is_empty());
}

#[test]
fn declined_settings_are_reset_and_others_kept() {
    let mut s = MacroSettings { always_listen: true };
    apply_setting_overrides(&mut s, &vec![]);
    assert!(s.always_listen);
    apply_setting_overrides(&mut s, &vec![("always_listen".to_string(), true)]);
    assert!(s.always_listen);
    apply_setting_overrides(&mut s, &vec![("other".to_string(), false)]);
    assert!(s.always_listen);
    apply_setting_overrides(&mut s, &vec![("always_listen".to_string(), false)]);
    assert!(!s.always_listen);
}

#[test]
fn block_colors_are_six_hex_digits_in_upper_case() {
    assert_eq!(normalize_block_color("#beef00"), Ok("#BEEF00".to_string()));
    assert_eq!(normalize_block_color("#A1b2C3"), Ok("#A1B2C3".to_string()));
    assert_eq!(normalize_block_color("not a color"), Err("Choose a valid block color".to_string()));
    assert!(normalize_block_color("#12345").is_err());
    assert!(normalize_block_color("#12345G").is_err());
    assert!(normalize_block_color("123456").is_err());
}
