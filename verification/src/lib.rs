//! Device monitoring and process supervision for a screen-mirroring launcher.
//!
//! The library holds the decisions: how the device listing is read, when the
//! mirroring process is started, restarted and stopped, how events are folded
//! into the shared application state. Running commands, sleeping and drawing
//! are left to the program around it.

pub mod device_monitor;
pub mod downloader;
pub mod github_api;
pub mod launcher;
pub mod monitor;
pub mod single_instance;
pub mod text;
pub mod tui;
pub mod ui;
pub mod updater;

pub use tui::TuiMessage;
