//! Core logic of a desktop tool that moves and resizes game windows according to
//! saved profiles: the profile list, the decisions taken while applying a profile
//! to a window, tray menu and IPC command handling, and log rotation.
pub mod profile;
pub mod text;
pub mod json_text;
pub mod uuid_text;
pub mod window_manager;
pub mod apply_run;
pub mod watch;
pub mod ipc;
pub mod tray;
pub mod updates;
pub mod shortcuts;
pub mod window_state;
pub mod logging;
pub mod locales;
