//! The commands the editor UI can call on the backend, by the names it
//! sends over the socket, and the camelCase names of the arguments each
//! one reads from the call's JSON object.

use vstd::prelude::*;
use crate::text::{push_all, str_eq, string_of};

verus! {

/// A backend command.
#[derive(Debug, Clone, Copy, PartialEq, Eq, Structural)]
pub enum Command {
    GetState,
    SelectMacro,
    NewMacro,
    RemoveMacro,
    SetTitle,
    SetMacroSpeedMultiplier,
    SetMacroAlwaysListen,
    SaveMacro,
    ExportMacroFileName,
    ExportMacro,
    ImportMacro,
    ConfirmImportMacro,
    CancelImportMacro,
    AddInstruction,
    EditInstruction,
    CreateVariable,
    RenameVariable,
    DeleteVariable,
    CreateList,
    RenameList,
    DeleteList,
    SetListItems,
    SetListEditorState,
    CreateBlock,
    EditBlock,
    DeleteBlock,
    EditValueField,
    SetValueKind,
    TakeValue,
    PutValue,
    PreviewValue,
    CreateFloatingValue,
    MoveFloatingValue,
    RemoveFloatingValue,
    CreateComment,
    CreateAttachedComment,
    MoveComment,
    RemoveComment,
    EditCommentText,
    SetCommentCollapsed,
    RemoveInstruction,
    ReorderInstruction,
    ClearInstructions,
    AddStrand,
    RemoveStrand,
    MoveStrand,
    SplitStrand,
    MergeStrand,
    DeleteInstruction,
    PasteInstructions,
    SetRecordingTarget,
    Undo,
    Redo,
    StartKeyCapture,
    StartStandaloneKeyCapture,
    KeyCaptureEvent,
    ClearStandaloneKeyCapture,
    RunMacro,
    ToggleLoopMode,
    SetGlobalSpeedMultiplier,
    StartRecording,
    StopRecording,
    RequestAbsoluteMouseSupport,
    ToggleRecordMouseRelative,
    ToggleRecordMouseMovement,
    OpenSettings,
    CloseSettings,
    StartComboCapture,
    StartPendingComboCapture,
    ComboCaptureEvent,
    CancelComboCapture,
    SetPendingMacroIdx,
    AddMacroHotkey,
    RemoveHotkeyBinding,
    ClearNamedHotkey,
    ResetHotkeyToDefault,
    SetIpcPortText,
    StartIpcServer,
    StopIpcServer,
    SetIpcAutoStart,
    SetCloseToTray,
    CheckForUpdates,
    ApplyUpdate,
    ListInstalledApps,
}

/// The name the UI calls a command by.
pub open spec fn command_name(c: Command) -> Seq<char> {
    match c {
        Command::GetState => "get_state"@,
        Command::SelectMacro => "select_macro"@,
        Command::NewMacro => "new_macro"@,
        Command::RemoveMacro => "remove_macro"@,
        Command::SetTitle => "set_title"@,
        Command::SetMacroSpeedMultiplier => "set_macro_speed_multiplier"@,
        Command::SetMacroAlwaysListen => "set_macro_always_listen"@,
        Command::SaveMacro => "save_macro"@,
        Command::ExportMacroFileName => "export_macro_file_name"@,
        Command::ExportMacro => "export_macro"@,
        Command::ImportMacro => "import_macro"@,
        Command::ConfirmImportMacro => "confirm_import_macro"@,
        Command::CancelImportMacro => "cancel_import_macro"@,
        Command::AddInstruction => "add_instruction"@,
        Command::EditInstruction => "edit_instruction"@,
        Command::CreateVariable => "create_variable"@,
        Command::RenameVariable => "rename_variable"@,
        Command::DeleteVariable => "delete_variable"@,
        Command::CreateList => "create_list"@,
        Command::RenameList => "rename_list"@,
        Command::DeleteList => "delete_list"@,
        Command::SetListItems => "set_list_items"@,
        Command::SetListEditorState => "set_list_editor_state"@,
        Command::CreateBlock => "create_block"@,
        Command::EditBlock => "edit_block"@,
        Command::DeleteBlock => "delete_block"@,
        Command::EditValueField => "edit_value_field"@,
        Command::SetValueKind => "set_value_kind"@,
        Command::TakeValue => "take_value"@,
        Command::PutValue => "put_value"@,
        Command::PreviewValue => "preview_value"@,
        Command::CreateFloatingValue => "create_floating_value"@,
        Command::MoveFloatingValue => "move_floating_value"@,
        Command::RemoveFloatingValue => "remove_floating_value"@,
        Command::CreateComment => "create_comment"@,
        Command::CreateAttachedComment => "create_attached_comment"@,
        Command::MoveComment => "move_comment"@,
        Command::RemoveComment => "remove_comment"@,
        Command::EditCommentText => "edit_comment_text"@,
        Command::SetCommentCollapsed => "set_comment_collapsed"@,
        Command::RemoveInstruction => "remove_instruction"@,
        Command::ReorderInstruction => "reorder_instruction"@,
        Command::ClearInstructions => "clear_instructions"@,
        Command::AddStrand => "add_strand"@,
        Command::RemoveStrand => "remove_strand"@,
        Command::MoveStrand => "move_strand"@,
        Command::SplitStrand => "split_strand"@,
        Command::MergeStrand => "merge_strand"@,
        Command::DeleteInstruction => "delete_instruction"@,
        Command::PasteInstructions => "paste_instructions"@,
        Command::SetRecordingTarget => "set_recording_target"@,
        Command::Undo => "undo"@,
        Command::Redo => "redo"@,
        Command::StartKeyCapture => "start_key_capture"@,
        Command::StartStandaloneKeyCapture => "start_standalone_key_capture"@,
        Command::KeyCaptureEvent => "key_capture_event"@,
        Command::ClearStandaloneKeyCapture => "clear_standalone_key_capture"@,
        Command::RunMacro => "run_macro"@,
        Command::ToggleLoopMode => "toggle_loop_mode"@,
        Command::SetGlobalSpeedMultiplier => "set_global_speed_multiplier"@,
        Command::StartRecording => "start_recording"@,
        Command::StopRecording => "stop_recording"@,
        Command::RequestAbsoluteMouseSupport => "request_absolute_mouse_support"@,
        Command::ToggleRecordMouseRelative => "toggle_record_mouse_relative"@,
        Command::ToggleRecordMouseMovement => "toggle_record_mouse_movement"@,
        Command::OpenSettings => "open_settings"@,
        Command::CloseSettings => "close_settings"@,
        Command::StartComboCapture => "start_combo_capture"@,
        Command::StartPendingComboCapture => "start_pending_combo_capture"@,
        Command::ComboCaptureEvent => "combo_capture_event"@,
        Command::CancelComboCapture => "cancel_combo_capture"@,
        Command::SetPendingMacroIdx => "set_pending_macro_idx"@,
        Command::AddMacroHotkey => "add_macro_hotkey"@,
        Command::RemoveHotkeyBinding => "remove_hotkey_binding"@,
        Command::ClearNamedHotkey => "clear_named_hotkey"@,
        Command::ResetHotkeyToDefault => "reset_hotkey_to_default"@,
        Command::SetIpcPortText => "set_ipc_port_text"@,
        Command::StartIpcServer => "start_ipc_server"@,
        Command::StopIpcServer => "stop_ipc_server"@,
        Command::SetIpcAutoStart => "set_ipc_auto_start"@,
        Command::SetCloseToTray => "set_close_to_tray"@,
        Command::CheckForUpdates => "check_for_updates"@,
        Command::ApplyUpdate => "apply_update"@,
        Command::ListInstalledApps => "list_installed_apps"@,
    }
}

/// The arguments a command reads, by name, in the order it reads them.
pub open spec fn command_args(c: Command) -> Seq<Seq<char>> {
    match c {
        Command::GetState => Seq::empty(),
        Command::SelectMacro => seq!["index"@],
        Command::NewMacro => Seq::empty(),
        Command::RemoveMacro => Seq::empty(),
        Command::SetTitle => seq!["title"@],
        Command::SetMacroSpeedMultiplier => seq!["multiplier"@],
        Command::SetMacroAlwaysListen => seq!["enabled"@],
        Command::SaveMacro => Seq::empty(),
        Command::ExportMacroFileName => seq!["macroId"@],
        Command::ExportMacro => seq!["macroId"@, "path"@],
        Command::ImportMacro => seq!["path"@],
        Command::ConfirmImportMacro => seq!["keepSettings"@],
        Command::CancelImportMacro => Seq::empty(),
        Command::AddInstruction => seq!["strandId"@, "path"@, "instruction"@],
        Command::EditInstruction => seq!["strandId"@, "path"@, "instruction"@],
        Command::CreateVariable => seq!["name"@],
        Command::RenameVariable => seq!["oldName"@, "newName"@],
        Command::DeleteVariable => seq!["name"@],
        Command::CreateList => seq!["name"@],
        Command::RenameList => seq!["oldName"@, "newName"@],
        Command::DeleteList => seq!["name"@],
        Command::SetListItems => seq!["name"@, "items"@],
        Command::SetListEditorState => seq!["name"@, "visible"@, "x"@, "y"@],
        Command::CreateBlock => seq!["pieces"@, "shape"@, "color"@],
        Command::EditBlock => seq!["blockId"@, "pieces"@, "shape"@, "color"@],
        Command::DeleteBlock => seq!["blockId"@],
        Command::EditValueField => seq!["location"@, "text"@],
        Command::SetValueKind => seq!["location"@, "kind"@],
        Command::TakeValue => seq!["location"@],
        Command::PutValue => seq!["location"@, "value"@],
        Command::PreviewValue => seq!["value"@],
        Command::CreateFloatingValue => seq!["x"@, "y"@, "value"@, "originBlockId"@],
        Command::MoveFloatingValue => seq!["floatingId"@, "x"@, "y"@],
        Command::RemoveFloatingValue => seq!["floatingId"@],
        Command::CreateComment => seq!["x"@, "y"@, "text"@],
        Command::CreateAttachedComment => seq!["instructionId"@, "dx"@, "dy"@, "text"@],
        Command::MoveComment => seq!["commentId"@, "x"@, "y"@],
        Command::RemoveComment => seq!["commentId"@],
        Command::EditCommentText => seq!["commentId"@, "text"@],
        Command::SetCommentCollapsed => seq!["commentId"@, "collapsed"@],
        Command::RemoveInstruction => seq!["strandId"@, "path"@],
        Command::ReorderInstruction => seq!["strandId"@, "path"@, "direction"@],
        Command::ClearInstructions => Seq::empty(),
        Command::AddStrand => seq!["x"@, "y"@, "instruction"@],
        Command::RemoveStrand => seq!["strandId"@],
        Command::MoveStrand => seq!["strandId"@, "x"@, "y"@],
        Command::SplitStrand => seq!["strandId"@, "path"@, "x"@, "y"@],
        Command::MergeStrand => seq!["draggedId"@, "targetId"@, "path"@],
        Command::DeleteInstruction => seq!["strandId"@, "path"@, "x"@, "y"@],
        Command::PasteInstructions => seq!["x"@, "y"@, "instructions"@],
        Command::SetRecordingTarget => seq!["strandId"@],
        Command::Undo => Seq::empty(),
        Command::Redo => Seq::empty(),
        Command::StartKeyCapture => seq!["strandId"@, "path"@],
        Command::StartStandaloneKeyCapture => Seq::empty(),
        Command::KeyCaptureEvent => seq!["code"@, "key"@],
        Command::ClearStandaloneKeyCapture => Seq::empty(),
        Command::RunMacro => Seq::empty(),
        Command::ToggleLoopMode => seq!["enabled"@],
        Command::SetGlobalSpeedMultiplier => seq!["multiplier"@],
        Command::StartRecording => Seq::empty(),
        Command::StopRecording => Seq::empty(),
        Command::RequestAbsoluteMouseSupport => Seq::empty(),
        Command::ToggleRecordMouseRelative => seq!["relative"@],
        Command::ToggleRecordMouseMovement => seq!["enabled"@],
        Command::OpenSettings => Seq::empty(),
        Command::CloseSettings => Seq::empty(),
        Command::StartComboCapture => seq!["action"@],
        Command::StartPendingComboCapture => Seq::empty(),
        Command::ComboCaptureEvent => seq!["code"@, "modifiers"@],
        Command::CancelComboCapture => Seq::empty(),
        Command::SetPendingMacroIdx => seq!["index"@],
        Command::AddMacroHotkey => Seq::empty(),
        Command::RemoveHotkeyBinding => seq!["index"@],
        Command::ClearNamedHotkey => seq!["action"@],
        Command::ResetHotkeyToDefault => seq!["action"@],
        Command::SetIpcPortText => seq!["text"@],
        Command::StartIpcServer => Seq::empty(),
        Command::StopIpcServer => Seq::empty(),
        Command::SetIpcAutoStart => seq!["enabled"@],
        Command::SetCloseToTray => seq!["enabled"@],
        Command::CheckForUpdates => Seq::empty(),
        Command::ApplyUpdate => Seq::empty(),
        Command::ListInstalledApps => Seq::empty(),
    }
}

/// The error a call to an unknown command is answered with.
pub open spec fn unknown_command_message(name: Seq<char>) -> Seq<char> {
    "unknown command: "@ + name
}

/// The views of a list of names.
pub open spec fn names_view(v: Seq<&'static str>) -> Seq<Seq<char>> {
    Seq::new(v.len(), |i: int| v[i]@)
}

impl Command {
    /// The name the UI calls this command by.
    pub fn name(&self) -> (r: &'static str)
        ensures
            r@ == command_name(*self),
    {
        match self {
            Command::GetState => "get_state",
            Command::SelectMacro => "select_macro",
            Command::NewMacro => "new_macro",
            Command::RemoveMacro => "remove_macro",
            Command::SetTitle => "set_title",
            Command::SetMacroSpeedMultiplier => "set_macro_speed_multiplier",
            Command::SetMacroAlwaysListen => "set_macro_always_listen",
            Command::SaveMacro => "save_macro",
            Command::ExportMacroFileName => "export_macro_file_name",
            Command::ExportMacro => "export_macro",
            Command::ImportMacro => "import_macro",
            Command::ConfirmImportMacro => "confirm_import_macro",
            Command::CancelImportMacro => "cancel_import_macro",
            Command::AddInstruction => "add_instruction",
            Command::EditInstruction => "edit_instruction",
            Command::CreateVariable => "create_variable",
            Command::RenameVariable => "rename_variable",
            Command::DeleteVariable => "delete_variable",
            Command::CreateList => "create_list",
            Command::RenameList => "rename_list",
            Command::DeleteList => "delete_list",
            Command::SetListItems => "set_list_items",
            Command::SetListEditorState => "set_list_editor_state",
            Command::CreateBlock => "create_block",
            Command::EditBlock => "edit_block",
            Command::DeleteBlock => "delete_block",
            Command::EditValueField => "edit_value_field",
            Command::SetValueKind => "set_value_kind",
            Command::TakeValue => "take_value",
            Command::PutValue => "put_value",
            Command::PreviewValue => "preview_value",
            Command::CreateFloatingValue => "create_floating_value",
            Command::MoveFloatingValue => "move_floating_value",
            Command::RemoveFloatingValue => "remove_floating_value",
            Command::CreateComment => "create_comment",
            Command::CreateAttachedComment => "create_attached_comment",
            Command::MoveComment => "move_comment",
            Command::RemoveComment => "remove_comment",
            Command::EditCommentText => "edit_comment_text",
            Command::SetCommentCollapsed => "set_comment_collapsed",
            Command::RemoveInstruction => "remove_instruction",
            Command::ReorderInstruction => "reorder_instruction",
            Command::ClearInstructions => "clear_instructions",
            Command::AddStrand => "add_strand",
            Command::RemoveStrand => "remove_strand",
            Command::MoveStrand => "move_strand",
            Command::SplitStrand => "split_strand",
            Command::MergeStrand => "merge_strand",
            Command::DeleteInstruction => "delete_instruction",
            Command::PasteInstructions => "paste_instructions",
            Command::SetRecordingTarget => "set_recording_target",
            Command::Undo => "undo",
            Command::Redo => "redo",
            Command::StartKeyCapture => "start_key_capture",
            Command::StartStandaloneKeyCapture => "start_standalone_key_capture",
            Command::KeyCaptureEvent => "key_capture_event",
            Command::ClearStandaloneKeyCapture => "clear_standalone_key_capture",
            Command::RunMacro => "run_macro",
            Command::ToggleLoopMode => "toggle_loop_mode",
            Command::SetGlobalSpeedMultiplier => "set_global_speed_multiplier",
            Command::StartRecording => "start_recording",
            Command::StopRecording => "stop_recording",
            Command::RequestAbsoluteMouseSupport => "request_absolute_mouse_support",
            Command::ToggleRecordMouseRelative => "toggle_record_mouse_relative",
            Command::ToggleRecordMouseMovement => "toggle_record_mouse_movement",
            Command::OpenSettings => "open_settings",
            Command::CloseSettings => "close_settings",
            Command::StartComboCapture => "start_combo_capture",
            Command::StartPendingComboCapture => "start_pending_combo_capture",
            Command::ComboCaptureEvent => "combo_capture_event",
            Command::CancelComboCapture => "cancel_combo_capture",
            Command::SetPendingMacroIdx => "set_pending_macro_idx",
            Command::AddMacroHotkey => "add_macro_hotkey",
            Command::RemoveHotkeyBinding => "remove_hotkey_binding",
            Command::ClearNamedHotkey => "clear_named_hotkey",
            Command::ResetHotkeyToDefault => "reset_hotkey_to_default",
            Command::SetIpcPortText => "set_ipc_port_text",
            Command::StartIpcServer => "start_ipc_server",
            Command::StopIpcServer => "stop_ipc_server",
            Command::SetIpcAutoStart => "set_ipc_auto_start",
            Command::SetCloseToTray => "set_close_to_tray",
            Command::CheckForUpdates => "check_for_updates",
            Command::ApplyUpdate => "apply_update",
            Command::ListInstalledApps => "list_installed_apps",
        }
    }

    /// The names of the arguments this command reads from the call.
    pub fn arg_names(&self) -> (r: Vec<&'static str>)
        ensures
            names_view(r@) == command_args(*self),
    {
        let mut r: Vec<&'static str> = Vec::new();
        match self {
            Command::SelectMacro => {
                r.push("index");
            },
            Command::SetTitle => {
                r.push("title");
            },
            Command::SetMacroSpeedMultiplier => {
                r.push("multiplier");
            },
            Command::SetMacroAlwaysListen => {
                r.push("enabled");
            },
            Command::ExportMacroFileName => {
                r.push("macroId");
            },
            Command::ExportMacro => {
                r.push("macroId");
                r.push("path");
            },
            Command::ImportMacro => {
                r.push("path");
            },
            Command::ConfirmImportMacro => {
                r.push("keepSettings");
            },
            Command::AddInstruction => {
                r.push("strandId");
                r.push("path");
                r.push("instruction");
            },
            Command::EditInstruction => {
                r.push("strandId");
                r.push("path");
                r.push("instruction");
            },
            Command::CreateVariable => {
                r.push("name");
            },
            Command::RenameVariable => {
                r.push("oldName");
                r.push("newName");
            },
            Command::DeleteVariable => {
                r.push("name");
            },
            Command::CreateList => {
                r.push("name");
            },
            Command::RenameList => {
                r.push("oldName");
                r.push("newName");
            },
            Command::DeleteList => {
                r.push("name");
            },
            Command::SetListItems => {
                r.push("name");
                r.push("items");
            },
            Command::SetListEditorState => {
                r.push("name");
                r.push("visible");
                r.push("x");
                r.push("y");
            },
            Command::CreateBlock => {
                r.push("pieces");
                r.push("shape");
                r.push("color");
            },
            Command::EditBlock => {
                r.push("blockId");
                r.push("pieces");
                r.push("shape");
                r.push("color");
            },
            Command::DeleteBlock => {
                r.push("blockId");
            },
            Command::EditValueField => {
                r.push("location");
                r.push("text");
            },
            Command::SetValueKind => {
                r.push("location");
                r.push("kind");
            },
            Command::TakeValue => {
                r.push("location");
            },
            Command::PutValue => {
                r.push("location");
                r.push("value");
            },
            Command::PreviewValue => {
                r.push("value");
            },
            Command::CreateFloatingValue => {
                r.push("x");
                r.push("y");
                r.push("value");
                r.push("originBlockId");
            },
            Command::MoveFloatingValue => {
                r.push("floatingId");
                r.push("x");
                r.push("y");
            },
            Command::RemoveFloatingValue => {
                r.push("floatingId");
            },
            Command::CreateComment => {
                r.push("x");
                r.push("y");
                r.push("text");
            },
            Command::CreateAttachedComment => {
                r.push("instructionId");
                r.push("dx");
                r.push("dy");
                r.push("text");
            },
            Command::MoveComment => {
                r.push("commentId");
                r.push("x");
                r.push("y");
            },
            Command::RemoveComment => {
                r.push("commentId");
            },
            Command::EditCommentText => {
                r.push("commentId");
                r.push("text");
            },
            Command::SetCommentCollapsed => {
                r.push("commentId");
                r.push("collapsed");
            },
            Command::RemoveInstruction => {
                r.push("strandId");
                r.push("path");
            },
            Command::ReorderInstruction => {
                r.push("strandId");
                r.push("path");
                r.push("direction");
            },
            Command::AddStrand => {
                r.push("x");
                r.push("y");
                r.push("instruction");
            },
            Command::RemoveStrand => {
                r.push("strandId");
            },
            Command::MoveStrand => {
                r.push("strandId");
                r.push("x");
                r.push("y");
            },
            Command::SplitStrand => {
                r.push("strandId");
                r.push("path");
                r.push("x");
                r.push("y");
            },
            Command::MergeStrand => {
                r.push("draggedId");
                r.push("targetId");
                r.push("path");
            },
            Command::DeleteInstruction => {
                r.push("strandId");
                r.push("path");
                r.push("x");
                r.push("y");
            },
            Command::PasteInstructions => {
                r.push("x");
                r.push("y");
                r.push("instructions");
            },
            Command::SetRecordingTarget => {
                r.push("strandId");
            },
            Command::StartKeyCapture => {
                r.push("strandId");
                r.push("path");
            },
            Command::KeyCaptureEvent => {
                r.push("code");
                r.push("key");
            },
            Command::ToggleLoopMode => {
                r.push("enabled");
            },
            Command::SetGlobalSpeedMultiplier => {
                r.push("multiplier");
            },
            Command::ToggleRecordMouseRelative => {
                r.push("relative");
            },
            Command::ToggleRecordMouseMovement => {
                r.push("enabled");
            },
            Command::StartComboCapture => {
                r.push("action");
            },
            Command::ComboCaptureEvent => {
                r.push("code");
                r.push("modifiers");
            },
            Command::SetPendingMacroIdx => {
                r.push("index");
            },
            Command::RemoveHotkeyBinding => {
                r.push("index");
            },
            Command::ClearNamedHotkey => {
                r.push("action");
            },
            Command::ResetHotkeyToDefault => {
                r.push("action");
            },
            Command::SetIpcPortText => {
                r.push("text");
            },
            Command::SetIpcAutoStart => {
                r.push("enabled");
            },
            Command::SetCloseToTray => {
                r.push("enabled");
            },
            _ => {},
        }
        assert(names_view(r@) =~= command_args(*self));
        r
    }

    /// The command called `name`; `unknown command: <name>` when there is
    /// none.
    pub fn from_name(name: &str) -> (r: Result<Command, String>)
        ensures
            match r {
                Ok(c) => command_name(c) == name@,
                Err(e) => e@ == unknown_command_message(name@) && forall|c: Command| command_name(c) != name@,
            },
    {
        if str_eq(name, "get_state") {
            return Ok(Command::GetState);
        }
        if str_eq(name, "select_macro") {
            return Ok(Command::SelectMacro);
        }
        if str_eq(name, "new_macro") {
            return Ok(Command::NewMacro);
        }
        if str_eq(name, "remove_macro") {
            return Ok(Command::RemoveMacro);
        }
        if str_eq(name, "set_title") {
            return Ok(Command::SetTitle);
        }
        if str_eq(name, "set_macro_speed_multiplier") {
            return Ok(Command::SetMacroSpeedMultiplier);
        }
        if str_eq(name, "set_macro_always_listen") {
            return Ok(Command::SetMacroAlwaysListen);
        }
        if str_eq(name, "save_macro") {
            return Ok(Command::SaveMacro);
        }
        if str_eq(name, "export_macro_file_name") {
            return Ok(Command::ExportMacroFileName);
        }
        if str_eq(name, "export_macro") {
            return Ok(Command::ExportMacro);
        }
        if str_eq(name, "import_macro") {
            return Ok(Command::ImportMacro);
        }
        if str_eq(name, "confirm_import_macro") {
            return Ok(Command::ConfirmImportMacro);
        }
        if str_eq(name, "cancel_import_macro") {
            return Ok(Command::CancelImportMacro);
        }
        if str_eq(name, "add_instruction") {
            return Ok(Command::AddInstruction);
        }
        if str_eq(name, "edit_instruction") {
            return Ok(Command::EditInstruction);
        }
        if str_eq(name, "create_variable") {
            return Ok(Command::CreateVariable);
        }
        if str_eq(name, "rename_variable") {
            return Ok(Command::RenameVariable);
        }
        if str_eq(name, "delete_variable") {
            return Ok(Command::DeleteVariable);
        }
        if str_eq(name, "create_list") {
            return Ok(Command::CreateList);
        }
        if str_eq(name, "rename_list") {
            return Ok(Command::RenameList);
        }
        if str_eq(name, "delete_list") {
            return Ok(Command::DeleteList);
        }
        if str_eq(name, "set_list_items") {
            return Ok(Command::SetListItems);
        }
        if str_eq(name, "set_list_editor_state") {
            return Ok(Command::SetListEditorState);
        }
        if str_eq(name, "create_block") {
            return Ok(Command::CreateBlock);
        }
        if str_eq(name, "edit_block") {
            return Ok(Command::EditBlock);
        }
        if str_eq(name, "delete_block") {
            return Ok(Command::DeleteBlock);
        }
        if str_eq(name, "edit_value_field") {
            return Ok(Command::EditValueField);
        }
        if str_eq(name, "set_value_kind") {
            return Ok(Command::SetValueKind);
        }
        if str_eq(name, "take_value") {
            return Ok(Command::TakeValue);
        }
        if str_eq(name, "put_value") {
            return Ok(Command::PutValue);
        }
        if str_eq(name, "preview_value") {
            return Ok(Command::PreviewValue);
        }
        if str_eq(name, "create_floating_value") {
            return Ok(Command::CreateFloatingValue);
        }
        if str_eq(name, "move_floating_value") {
            return Ok(Command::MoveFloatingValue);
        }
        if str_eq(name, "remove_floating_value") {
            return Ok(Command::RemoveFloatingValue);
        }
        if str_eq(name, "create_comment") {
            return Ok(Command::CreateComment);
        }
        if str_eq(name, "create_attached_comment") {
            return Ok(Command::CreateAttachedComment);
        }
        if str_eq(name, "move_comment") {
            return Ok(Command::MoveComment);
        }
        if str_eq(name, "remove_comment") {
            return Ok(Command::RemoveComment);
        }
        if str_eq(name, "edit_comment_text") {
            return Ok(Command::EditCommentText);
        }
        if str_eq(name, "set_comment_collapsed") {
            return Ok(Command::SetCommentCollapsed);
        }
        if str_eq(name, "remove_instruction") {
            return Ok(Command::RemoveInstruction);
        }
        if str_eq(name, "reorder_instruction") {
            return Ok(Command::ReorderInstruction);
        }
        if str_eq(name, "clear_instructions") {
            return Ok(Command::ClearInstructions);
        }
        if str_eq(name, "add_strand") {
            return Ok(Command::AddStrand);
        }
        if str_eq(name, "remove_strand") {
            return Ok(Command::RemoveStrand);
        }
        if str_eq(name, "move_strand") {
            return Ok(Command::MoveStrand);
        }
        if str_eq(name, "split_strand") {
            return Ok(Command::SplitStrand);
        }
        if str_eq(name, "merge_strand") {
            return Ok(Command::MergeStrand);
        }
        if str_eq(name, "delete_instruction") {
            return Ok(Command::DeleteInstruction);
        }
        if str_eq(name, "paste_instructions") {
            return Ok(Command::PasteInstructions);
        }
        if str_eq(name, "set_recording_target") {
            return Ok(Command::SetRecordingTarget);
        }
        if str_eq(name, "undo") {
            return Ok(Command::Undo);
        }
        if str_eq(name, "redo") {
            return Ok(Command::Redo);
        }
        if str_eq(name, "start_key_capture") {
            return Ok(Command::StartKeyCapture);
        }
        if str_eq(name, "start_standalone_key_capture") {
            return Ok(Command::StartStandaloneKeyCapture);
        }
        if str_eq(name, "key_capture_event") {
            return Ok(Command::KeyCaptureEvent);
        }
        if str_eq(name, "clear_standalone_key_capture") {
            return Ok(Command::ClearStandaloneKeyCapture);
        }
        if str_eq(name, "run_macro") {
            return Ok(Command::RunMacro);
        }
        if str_eq(name, "toggle_loop_mode") {
            return Ok(Command::ToggleLoopMode);
        }
        if str_eq(name, "set_global_speed_multiplier") {
            return Ok(Command::SetGlobalSpeedMultiplier);
        }
        if str_eq(name, "start_recording") {
            return Ok(Command::StartRecording);
        }
        if str_eq(name, "stop_recording") {
            return Ok(Command::StopRecording);
        }
        if str_eq(name, "request_absolute_mouse_support") {
            return Ok(Command::RequestAbsoluteMouseSupport);
        }
        if str_eq(name, "toggle_record_mouse_relative") {
            return Ok(Command::ToggleRecordMouseRelative);
        }
        if str_eq(name, "toggle_record_mouse_movement") {
            return Ok(Command::ToggleRecordMouseMovement);
        }
        if str_eq(name, "open_settings") {
            return Ok(Command::OpenSettings);
        }
        if str_eq(name, "close_settings") {
            return Ok(Command::CloseSettings);
        }
        if str_eq(name, "start_combo_capture") {
            return Ok(Command::StartComboCapture);
        }
        if str_eq(name, "start_pending_combo_capture") {
            return Ok(Command::StartPendingComboCapture);
        }
        if str_eq(name, "combo_capture_event") {
            return Ok(Command::ComboCaptureEvent);
        }
        if str_eq(name, "cancel_combo_capture") {
            return Ok(Command::CancelComboCapture);
        }
        if str_eq(name, "set_pending_macro_idx") {
            return Ok(Command::SetPendingMacroIdx);
        }
        if str_eq(name, "add_macro_hotkey") {
            return Ok(Command::AddMacroHotkey);
        }
        if str_eq(name, "remove_hotkey_binding") {
            return Ok(Command::RemoveHotkeyBinding);
        }
        if str_eq(name, "clear_named_hotkey") {
            return Ok(Command::ClearNamedHotkey);
        }
        if str_eq(name, "reset_hotkey_to_default") {
            return Ok(Command::ResetHotkeyToDefault);
        }
        if str_eq(name, "set_ipc_port_text") {
            return Ok(Command::SetIpcPortText);
        }
        if str_eq(name, "start_ipc_server") {
            return Ok(Command::StartIpcServer);
        }
        if str_eq(name, "stop_ipc_server") {
            return Ok(Command::StopIpcServer);
        }
        if str_eq(name, "set_ipc_auto_start") {
            return Ok(Command::SetIpcAutoStart);
        }
        if str_eq(name, "set_close_to_tray") {
            return Ok(Command::SetCloseToTray);
        }
        if str_eq(name, "check_for_updates") {
            return Ok(Command::CheckForUpdates);
        }
        if str_eq(name, "apply_update") {
            return Ok(Command::ApplyUpdate);
        }
        if str_eq(name, "list_installed_apps") {
            return Ok(Command::ListInstalledApps);
        }
        let mut e = string_of("unknown command: ");
        push_all(&mut e, name);
        Err(e)
    }
}

/// The error a call answers with when its argument `name` does not read as
/// the type the command expects; `detail` says why.
pub open spec fn invalid_argument_message(name: Seq<char>, detail: Seq<char>) -> Seq<char> {
    "invalid argument '"@ + name + "': "@ + detail
}

/// Formats the error for an argument that does not read (see
/// [`invalid_argument_message`]).
pub fn invalid_argument(name: &str, detail: &str) -> (r: String)
    ensures
        r@ == invalid_argument_message(name@, detail@),
{
    let mut r = string_of("invalid argument '");
    push_all(&mut r, name);
    push_all(&mut r, "': ");
    push_all(&mut r, detail);
    proof {
        reveal_strlit("invalid argument '");
        reveal_strlit("': ");
    }
    r
}

} // verus!
