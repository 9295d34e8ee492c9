use blockwork::backend::{absolute_mouse_position_source_available, host_command_line, is_wayland_session};

#[test]
fn wayland_is_detected_from_either_variable() {
    assert!(is_wayland_session(true, false));
    assert!(is_wayland_session(false, true));
    assert!(!is_wayland_session(false, false));
    assert!(absolute_mouse_position_source_available(false, true));
    assert!(!absolute_mouse_position_source_available(false, false));
}

#[test]
fn sandboxed_commands_run_through_flatpak_spawn() {
    assert_eq!(host_command_line("sh", true), vec!["flatpak-spawn", "--host", "sh"]);
    assert_eq!(host_command_line("sh", false), vec!["sh"]);
}
