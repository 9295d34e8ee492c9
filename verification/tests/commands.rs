use blockwork::commands::Command;

fn all_commands() -> Vec<Command> {
    vec![
        Command::GetState,
        Command::SelectMacro,
        Command::NewMacro,
        Command::RemoveMacro,
        Command::SetTitle,
        Command::SetMacroSpeedMultiplier,
        Command::SetMacroAlwaysListen,
        Command::SaveMacro,
        Command::ExportMacroFileName,
        Command::ExportMacro,
        Command::ImportMacro,
        Command::ConfirmImportMacro,
        Command::CancelImportMacro,
        Command::AddInstruction,
        Command::EditInstruction,
        Command::CreateVariable,
        Command::RenameVariable,
        Command::DeleteVariable,
        Command::CreateList,
        Command::RenameList,
        Command::DeleteList,
        Command::SetListItems,
        Command::SetListEditorState,
        Command::CreateBlock,
        Command::EditBlock,
        Command::DeleteBlock,
        Command::EditValueField,
        Command::SetValueKind,
        Command::TakeValue,
        Command::PutValue,
        Command::PreviewValue,
        Command::CreateFloatingValue,
        Command::MoveFloatingValue,
        Command::RemoveFloatingValue,
        Command::CreateComment,
        Command::CreateAttachedComment,
        Command::MoveComment,
        Command::RemoveComment,
        Command::EditCommentText,
        Command::SetCommentCollapsed,
        Command::RemoveInstruction,
        Command::ReorderInstruction,
        Command::ClearInstructions,
        Command::AddStrand,
        Command::RemoveStrand,
        Command::MoveStrand,
        Command::SplitStrand,
        Command::MergeStrand,
        Command::DeleteInstruction,
        Command::PasteInstructions,
        Command::SetRecordingTarget,
        Command::Undo,
        Command::Redo,
        Command::StartKeyCapture,
        Command::StartStandaloneKeyCapture,
        Command::KeyCaptureEvent,
        Command::ClearStandaloneKeyCapture,
        Command::RunMacro,
        Command::ToggleLoopMode,
        Command::SetGlobalSpeedMultiplier,
        Command::StartRecording,
        Command::StopRecording,
        Command::RequestAbsoluteMouseSupport,
        Command::ToggleRecordMouseRelative,
        Command::ToggleRecordMouseMovement,
        Command::OpenSettings,
        Command::CloseSettings,
        Command::StartComboCapture,
        Command::StartPendingComboCapture,
        Command::ComboCaptureEvent,
        Command::CancelComboCapture,
        Command::SetPendingMacroIdx,
        Command::AddMacroHotkey,
        Command::RemoveHotkeyBinding,
        Command::ClearNamedHotkey,
        Command::ResetHotkeyToDefault,
        Command::SetIpcPortText,
        Command::StartIpcServer,
        Command::StopIpcServer,
        Command::SetIpcAutoStart,
        Command::SetCloseToTray,
        Command::CheckForUpdates,
        Command::ApplyUpdate,
        Command::ListInstalledApps,
    ]
}

#[test]
fn every_command_is_found_by_its_name() {
    let all = all_commands();
    assert_eq!(all.len(), 84);
    for c in all {
        assert_eq!(Command::from_name(c.name()), Ok(c));
    }
}

#[test]
fn unknown_commands_are_refused_by_name() {
    assert_eq!(Command::from_name("launch_rockets"), Err("unknown command: launch_rockets".to_string()));
    assert_eq!(Command::from_name(""), Err("unknown command: ".to_string()));
    assert!(Command::from_name("Get_State").is_err());
}

#[test]
fn commands_read_their_camel_case_arguments() {
    assert_eq!(Command::from_name("rename_variable").unwrap().arg_names(), vec!["oldName", "newName"]);
    assert_eq!(Command::SetListEditorState.arg_names(), vec!["name", "visible", "x", "y"]);
    assert!(Command::Undo.arg_names().is_empty());
    assert_eq!(Command::CreateFloatingValue.arg_names(), vec!["x", "y", "value", "originBlockId"]);
}

#[test]
fn unreadable_arguments_are_named_in_the_error() {
    assert_eq!(
        blockwork::commands::invalid_argument("index", "invalid type: string \"x\", expected usize"),
        "invalid argument 'index': invalid type: string \"x\", expected usize"
    );
}
