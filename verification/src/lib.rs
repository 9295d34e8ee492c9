//! Blockwork's verified core: the block vocabulary and the macro document
//! around it, the edits and loads the editor makes on it, the UI/daemon
//! protocol and the shared-memory ring buffer, and the pure decisions
//! behind the desktop app's timers, settings, hotkeys and helpers.

// Text and ids.
pub mod text;
pub mod ids;

// The block vocabulary and the macro document.
pub mod value;
pub mod instruction;
pub mod fields;
pub mod slots;
pub mod macros;
pub mod legacy;
pub mod key_capture;

// The editor state as the UI sees it, and the commands it calls.
pub mod state;
pub mod dto;
pub mod state_dto;
pub mod commands;
pub mod library;
pub mod transfer;
pub mod bindings;
pub mod hotkeys;
pub mod recording;
pub mod time_watch;
pub mod settings;

// The daemon, its socket and the window's connection to it.
pub mod protocol;
pub mod session;
pub mod endpoint;
pub mod ui_link;
pub mod calls;

// The input backends and their helpers.
pub mod backend;
pub mod capture;
pub mod display;
pub mod wire;

// Installed apps, icons and self-update.
pub mod apps;
pub mod icons;
pub mod updater;
