//! The editor state's vocabulary as the UI sees it: input directions,
//! coordinate modes and scroll axes by name, hotkey actions and their wire
//! form, and the recording, update-check and page status strings.

use vstd::prelude::*;
use vstd::string::*;
use crate::text::{str_eq, string_of};

verus! {

/// Whether a key or button is clicked, pressed or released.
#[derive(Debug, Clone, Copy, PartialEq, Eq, Hash, Structural)]
pub enum Direction {
    Click,
    Press,
    Release,
}

/// Whether a mouse move is to an absolute position or by a relative offset.
#[derive(Debug, Clone, Copy, PartialEq, Eq, Hash, Structural)]
pub enum Coordinate {
    Abs,
    Rel,
}

/// Which way a scroll goes.
#[derive(Debug, Clone, Copy, PartialEq, Eq, Hash, Structural)]
pub enum Axis {
    Vertical,
    Horizontal,
}

pub open spec fn direction_name(d: Direction) -> Seq<char> {
    match d {
        Direction::Click => "Click"@,
        Direction::Press => "Press"@,
        Direction::Release => "Release"@,
    }
}

/// Any name but `Press` or `Release` reads as `Click`.
pub open spec fn direction_of(s: Seq<char>) -> Direction {
    if s == "Press"@ {
        Direction::Press
    } else if s == "Release"@ {
        Direction::Release
    } else {
        Direction::Click
    }
}

pub open spec fn coordinate_name(c: Coordinate) -> Seq<char> {
    match c {
        Coordinate::Abs => "Absolute"@,
        Coordinate::Rel => "Relative"@,
    }
}

/// Any name but `Relative` reads as absolute.
pub open spec fn coordinate_of(s: Seq<char>) -> Coordinate {
    if s == "Relative"@ {
        Coordinate::Rel
    } else {
        Coordinate::Abs
    }
}

pub open spec fn axis_name(a: Axis) -> Seq<char> {
    match a {
        Axis::Vertical => "Vertical"@,
        Axis::Horizontal => "Horizontal"@,
    }
}

/// Any name but `Horizontal` reads as vertical.
pub open spec fn axis_of(s: Seq<char>) -> Axis {
    if s == "Horizontal"@ {
        Axis::Horizontal
    } else {
        Axis::Vertical
    }
}

pub fn direction_to_str(d: &Direction) -> (s: &'static str)
    ensures
        s@ == direction_name(*d),
{
    match d {
        Direction::Click => "Click",
        Direction::Press => "Press",
        Direction::Release => "Release",
    }
}

pub fn str_to_direction(s: &str) -> (d: Direction)
    ensures
        d == direction_of(s@),
{
    if str_eq(s, "Press") {
        Direction::Press
    } else if str_eq(s, "Release") {
        Direction::Release
    } else {
        Direction::Click
    }
}

pub fn coordinate_to_str(c: &Coordinate) -> (s: &'static str)
    ensures
        s@ == coordinate_name(*c),
{
    match c {
        Coordinate::Abs => "Absolute",
        Coordinate::Rel => "Relative",
    }
}

pub fn str_to_coordinate(s: &str) -> (c: Coordinate)
    ensures
        c == coordinate_of(s@),
{
    if str_eq(s, "Relative") {
        Coordinate::Rel
    } else {
        Coordinate::Abs
    }
}

pub fn axis_to_str(a: &Axis) -> (s: &'static str)
    ensures
        s@ == axis_name(*a),
{
    match a {
        Axis::Vertical => "Vertical",
        Axis::Horizontal => "Horizontal",
    }
}

pub fn str_to_axis(s: &str) -> (a: Axis)
    ensures
        a == axis_of(s@),
{
    if str_eq(s, "Horizontal") {
        Axis::Horizontal
    } else {
        Axis::Vertical
    }
}

/// Each name reads back as what it names.
pub proof fn lemma_names_round_trip(d: Direction, c: Coordinate, a: Axis)
    ensures
        direction_of(direction_name(d)) == d,
        coordinate_of(coordinate_name(c)) == c,
        axis_of(axis_name(a)) == a,
{
    reveal_strlit("Click");
    reveal_strlit("Press");
    reveal_strlit("Release");
    reveal_strlit("Absolute");
    reveal_strlit("Relative");
    reveal_strlit("Vertical");
    reveal_strlit("Horizontal");
    assert("Click"@[0] != "Press"@[0]);
    assert("Click"@[0] != "Release"@[0]);
    assert("Press"@[0] != "Release"@[0]);
    assert("Absolute"@[0] != "Relative"@[0]);
    assert("Vertical"@[0] != "Horizontal"@[0]);
}

/// What a hotkey does.
#[derive(Debug, Clone, PartialEq, Eq)]
pub enum HotkeyAction {
    RunMacro,
    StopLoop,
    NextMacro,
    PrevMacro,
    ToggleLoop,
    StartRecordingImmediate,
    StopRecording,
    Undo,
    Redo,
    RunSpecificMacro(String),
}

/// The wire form of a [`HotkeyAction`].
#[derive(Debug, Clone, PartialEq, Eq)]
pub enum HotkeyActionDto {
    RunMacro,
    StopLoop,
    NextMacro,
    PrevMacro,
    ToggleLoop,
    StartRecordingImmediate,
    StopRecording,
    Undo,
    Redo,
    RunSpecificMacro { macro_id: String },
}

/// Whether an action and a wire form name the same thing.
pub open spec fn action_matches_dto(a: HotkeyAction, d: HotkeyActionDto) -> bool {
    match (a, d) {
        (HotkeyAction::RunMacro, HotkeyActionDto::RunMacro) => true,
        (HotkeyAction::StopLoop, HotkeyActionDto::StopLoop) => true,
        (HotkeyAction::NextMacro, HotkeyActionDto::NextMacro) => true,
        (HotkeyAction::PrevMacro, HotkeyActionDto::PrevMacro) => true,
        (HotkeyAction::ToggleLoop, HotkeyActionDto::ToggleLoop) => true,
        (HotkeyAction::StartRecordingImmediate, HotkeyActionDto::StartRecordingImmediate) => true,
        (HotkeyAction::StopRecording, HotkeyActionDto::StopRecording) => true,
        (HotkeyAction::Undo, HotkeyActionDto::Undo) => true,
        (HotkeyAction::Redo, HotkeyActionDto::Redo) => true,
        (HotkeyAction::RunSpecificMacro(id), HotkeyActionDto::RunSpecificMacro { macro_id }) => id@
            == macro_id@,
        _ => false,
    }
}

/// Whether two actions are the same action.
pub open spec fn same_action(a: HotkeyAction, b: HotkeyAction) -> bool {
    match (a, b) {
        (HotkeyAction::RunSpecificMacro(x), HotkeyAction::RunSpecificMacro(y)) => x@ == y@,
        (HotkeyAction::RunSpecificMacro(_), _) => false,
        (_, HotkeyAction::RunSpecificMacro(_)) => false,
        _ => a == b,
    }
}

pub fn hotkey_action_to_dto(action: &HotkeyAction) -> (d: HotkeyActionDto)
    ensures
        action_matches_dto(*action, d),
{
    match action {
        HotkeyAction::RunMacro => HotkeyActionDto::RunMacro,
        HotkeyAction::StopLoop => HotkeyActionDto::StopLoop,
        HotkeyAction::NextMacro => HotkeyActionDto::NextMacro,
        HotkeyAction::PrevMacro => HotkeyActionDto::PrevMacro,
        HotkeyAction::ToggleLoop => HotkeyActionDto::ToggleLoop,
        HotkeyAction::StartRecordingImmediate => HotkeyActionDto::StartRecordingImmediate,
        HotkeyAction::StopRecording => HotkeyActionDto::StopRecording,
        HotkeyAction::Undo => HotkeyActionDto::Undo,
        HotkeyAction::Redo => HotkeyActionDto::Redo,
        HotkeyAction::RunSpecificMacro(id) => HotkeyActionDto::RunSpecificMacro { macro_id: id.clone() },
    }
}

pub fn dto_to_hotkey_action(dto: &HotkeyActionDto) -> (a: HotkeyAction)
    ensures
        action_matches_dto(a, *dto),
{
    match dto {
        HotkeyActionDto::RunMacro => HotkeyAction::RunMacro,
        HotkeyActionDto::StopLoop => HotkeyAction::StopLoop,
        HotkeyActionDto::NextMacro => HotkeyAction::NextMacro,
        HotkeyActionDto::PrevMacro => HotkeyAction::PrevMacro,
        HotkeyActionDto::ToggleLoop => HotkeyAction::ToggleLoop,
        HotkeyActionDto::StartRecordingImmediate => HotkeyAction::StartRecordingImmediate,
        HotkeyActionDto::StopRecording => HotkeyAction::StopRecording,
        HotkeyActionDto::Undo => HotkeyAction::Undo,
        HotkeyActionDto::Redo => HotkeyAction::Redo,
        HotkeyActionDto::RunSpecificMacro { macro_id } => HotkeyAction::RunSpecificMacro(macro_id.clone()),
    }
}

/// Converting an action to its wire form and back gives the same action:
/// two actions that match one wire form are the same action.
pub proof fn lemma_hotkey_action_round_trip(a: HotkeyAction, d: HotkeyActionDto, b: HotkeyAction)
    requires
        action_matches_dto(a, d),
        action_matches_dto(b, d),
    ensures
        same_action(a, b),
{
}

/// Per-macro settings edited from the macro settings popup.
#[derive(Debug, Clone, Copy, PartialEq, Eq, Hash, Structural)]
pub struct MacroSettings {
    /// Watch this macro's event strands even while another macro is selected.
    pub always_listen: bool,
}

impl MacroSettings {
    /// The settings a new macro starts with: every switch off.
    pub open spec fn default_spec() -> MacroSettings {
        MacroSettings { always_listen: false }
    }
}

impl Default for MacroSettings {
    fn default() -> (r: MacroSettings)
        ensures
            r == MacroSettings::default_spec(),
    {
        MacroSettings { always_listen: false }
    }
}

/// The wire shape of [`MacroSettings`].
#[derive(Debug, Clone, PartialEq, Eq, Default, Structural)]
pub struct MacroSettingsDto {
    pub always_listen: bool,
}

pub fn macro_settings_to_dto(settings: &MacroSettings) -> (d: MacroSettingsDto)
    ensures
        d.always_listen == settings.always_listen,
{
    MacroSettingsDto { always_listen: settings.always_listen }
}

/// Where recording is.
#[derive(Debug, Clone, PartialEq, Eq, Structural)]
pub enum RecordingPhase {
    Idle,
    Countdown(u8),
    Active,
}

/// The wire shape of a [`RecordingPhase`].
pub struct RecordingPhaseDto {
    pub phase: String,
    pub countdown: Option<u8>,
}

pub fn recording_phase_to_dto(p: &RecordingPhase) -> (d: RecordingPhaseDto)
    ensures
        match *p {
            RecordingPhase::Idle => d.phase@ == "Idle"@ && d.countdown is None,
            RecordingPhase::Countdown(n) => d.phase@ == "Countdown"@ && d.countdown == Some(n),
            RecordingPhase::Active => d.phase@ == "Active"@ && d.countdown is None,
        },
{
    match p {
        RecordingPhase::Idle => RecordingPhaseDto { phase: string_of("Idle"), countdown: None },
        RecordingPhase::Countdown(n) => RecordingPhaseDto { phase: string_of("Countdown"), countdown: Some(*n) },
        RecordingPhase::Active => RecordingPhaseDto { phase: string_of("Active"), countdown: None },
    }
}

/// Where the update check is.
#[derive(Debug, Clone, PartialEq, Eq)]
pub enum UpdateCheckState {
    Idle,
    Checking,
    UpToDate,
    UpdateAvailable(String),
    Applying,
    Error(String),
}

/// The wire shape of an [`UpdateCheckState`].
pub struct UpdateCheckStateDto {
    pub state: String,
    pub version: Option<String>,
    pub error: Option<String>,
}

pub fn update_check_state_to_dto(u: &UpdateCheckState) -> (d: UpdateCheckStateDto)
    ensures
        match *u {
            UpdateCheckState::Idle => d.state@ == "Idle"@ && d.version is None && d.error is None,
            UpdateCheckState::Checking => d.state@ == "Checking"@ && d.version is None && d.error is None,
            UpdateCheckState::UpToDate => d.state@ == "UpToDate"@ && d.version is None && d.error is None,
            UpdateCheckState::UpdateAvailable(v) => d.state@ == "UpdateAvailable"@ && d.version == Some(v)
                && d.error is None,
            UpdateCheckState::Applying => d.state@ == "Applying"@ && d.version is None && d.error is None,
            UpdateCheckState::Error(e) => d.state@ == "Error"@ && d.version is None && d.error == Some(e),
        },
{
    match u {
        UpdateCheckState::Idle => UpdateCheckStateDto { state: string_of("Idle"), version: None, error: None },
        UpdateCheckState::Checking => UpdateCheckStateDto { state: string_of("Checking"), version: None, error: None },
        UpdateCheckState::UpToDate => UpdateCheckStateDto { state: string_of("UpToDate"), version: None, error: None },
        UpdateCheckState::UpdateAvailable(v) => UpdateCheckStateDto {
            state: string_of("UpdateAvailable"),
            version: Some(v.clone()),
            error: None,
        },
        UpdateCheckState::Applying => UpdateCheckStateDto { state: string_of("Applying"), version: None, error: None },
        UpdateCheckState::Error(e) => UpdateCheckStateDto {
            state: string_of("Error"),
            version: None,
            error: Some(e.clone()),
        },
    }
}

/// Which page the editor shows.
#[derive(Debug, Clone, Copy, PartialEq, Eq, Structural)]
pub enum Page {
    Main,
    Settings,
}

pub fn page_name(p: &Page) -> (s: String)
    ensures
        s@ == (match *p {
            Page::Main => "Main"@,
            Page::Settings => "Settings"@,
        }),
{
    match p {
        Page::Main => string_of("Main"),
        Page::Settings => string_of("Settings"),
    }
}


/// A hotkey combo being captured: for a named action, or for the pending
/// per-macro hotkey.
#[derive(Debug, Clone, PartialEq, Eq)]
pub enum ComboCapture {
    Named(HotkeyAction),
    Pending,
}

/// The wire shape of a [`ComboCapture`].
pub struct ComboCaptureDto {
    pub kind: String,
    pub action: Option<HotkeyActionDto>,
}

pub fn combo_capture_to_dto(c: &ComboCapture) -> (d: ComboCaptureDto)
    ensures
        match *c {
            ComboCapture::Named(a) => d.kind@ == "Named"@ && (d.action matches Some(x) && action_matches_dto(a, x)),
            ComboCapture::Pending => d.kind@ == "Pending"@ && d.action is None,
        },
{
    match c {
        ComboCapture::Named(a) => ComboCaptureDto { kind: string_of("Named"), action: Some(hotkey_action_to_dto(a)) },
        ComboCapture::Pending => ComboCaptureDto { kind: string_of("Pending"), action: None },
    }
}

/// Where a captured keypress goes: into an instruction at a path on a
/// strand, or parked for a standalone key prefab.
#[derive(Debug, PartialEq)]
pub enum KeyCaptureTarget {
    Strand(String, Vec<crate::instruction::PathStep>),
    Standalone,
}

/// The wire shape of a [`KeyCaptureTarget`].
pub struct KeyCaptureDto {
    pub kind: String,
    pub strand_id: Option<String>,
    pub index: Option<Vec<crate::instruction::PathStep>>,
}

pub fn key_capture_to_dto(t: &KeyCaptureTarget) -> (d: KeyCaptureDto)
    ensures
        match *t {
            KeyCaptureTarget::Strand(id, path) => d.kind@ == "Strand"@ && (d.strand_id matches Some(s) && s@ == id@)
                && (d.index matches Some(p) && p@ == path@),
            KeyCaptureTarget::Standalone => d.kind@ == "Standalone"@ && d.strand_id is None && d.index is None,
        },
{
    match t {
        KeyCaptureTarget::Strand(id, path) => {
            let mut p: Vec<crate::instruction::PathStep> = Vec::new();
            let mut i: usize = 0;
            while i < path.len()
                invariant
                    i <= path@.len(),
                    p@ == path@.take(i as int),
                decreases path@.len() - i,
            {
                p.push(path[i]);
                i = i + 1;
                assert(p@ =~= path@.take(i as int));
            }
            assert(path@.take(path@.len() as int) =~= path@);
            KeyCaptureDto { kind: string_of("Strand"), strand_id: Some(string_of(id.as_str())), index: Some(p) }
        },
        KeyCaptureTarget::Standalone => KeyCaptureDto { kind: string_of("Standalone"), strand_id: None, index: None },
    }
}

/// The actions that have a named hotkey, in the order the settings page
/// lists them.
pub open spec fn named_actions_spec() -> Seq<HotkeyAction> {
    seq![
        HotkeyAction::RunMacro,
        HotkeyAction::StopLoop,
        HotkeyAction::NextMacro,
        HotkeyAction::PrevMacro,
        HotkeyAction::ToggleLoop,
        HotkeyAction::StartRecordingImmediate,
        HotkeyAction::StopRecording,
        HotkeyAction::Undo,
        HotkeyAction::Redo,
    ]
}

/// The actions that have a named hotkey (see [`named_actions_spec`]).
pub fn named_hotkey_actions() -> (r: Vec<HotkeyAction>)
    ensures
        r@ == named_actions_spec(),
{
    let mut r: Vec<HotkeyAction> = Vec::new();
    r.push(HotkeyAction::RunMacro);
    r.push(HotkeyAction::StopLoop);
    r.push(HotkeyAction::NextMacro);
    r.push(HotkeyAction::PrevMacro);
    r.push(HotkeyAction::ToggleLoop);
    r.push(HotkeyAction::StartRecordingImmediate);
    r.push(HotkeyAction::StopRecording);
    r.push(HotkeyAction::Undo);
    r.push(HotkeyAction::Redo);
    assert(r@ =~= named_actions_spec());
    r
}

/// The name of the first of `macros` (id, name pairs) with id `id`.
pub open spec fn name_for_id(macros: Seq<(String, String)>, id: Seq<char>) -> Option<Seq<char>>
    decreases macros.len(),
{
    if macros.len() == 0 {
        None
    } else if macros[0].0@ == id {
        Some(macros[0].1@)
    } else {
        name_for_id(macros.drop_first(), id)
    }
}

/// The macro name a hotkey binding shows: for a specific-macro binding the
/// name of the first saved macro with that id, or `(deleted)` when none is
/// left; nothing for the other actions. `macros` holds (id, name) pairs.
pub open spec fn binding_name_spec(action: HotkeyAction, macros: Seq<(String, String)>) -> Option<Seq<char>> {
    match action {
        HotkeyAction::RunSpecificMacro(id) => match name_for_id(macros, id@) {
            Some(n) => Some(n),
            None => Some("(deleted)"@),
        },
        _ => None,
    }
}

/// The macro name a hotkey binding shows (see [`binding_name_spec`]).
pub fn binding_macro_name(action: &HotkeyAction, macros: &Vec<(String, String)>) -> (r: Option<String>)
    ensures
        match binding_name_spec(*action, macros@) {
            Some(n) => r matches Some(s) && s@ == n,
            None => r is None,
        },
{
    match action {
        HotkeyAction::RunSpecificMacro(id) => {
            let mut i: usize = 0;
            assert(macros@.skip(0) =~= macros@);
            while i < macros.len()
                invariant
                    i <= macros@.len(),
                    name_for_id(macros@, id@) == name_for_id(macros@.skip(i as int), id@),
                    *action == HotkeyAction::RunSpecificMacro(*id),
                decreases macros@.len() - i,
            {
                assert(macros@.skip(i as int)[0] == macros@[i as int]);
                if str_eq(macros[i].0.as_str(), id.as_str()) {
                    assert(macros@.skip(i as int).len() > 0);
                    assert(name_for_id(macros@.skip(i as int), id@) == Some(macros@[i as int].1@));
                    return Some(string_of(macros[i].1.as_str()));
                }
                assert(macros@.skip(i as int).drop_first() =~= macros@.skip(i + 1));
                i = i + 1;
            }
            Some(string_of("(deleted)"))
        },
        _ => None,
    }
}

} // verus!
