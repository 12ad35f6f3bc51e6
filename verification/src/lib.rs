//! Core logic of the GrapeVine game launcher: parsing downloader output,
//! choosing executables, building Wine commands, the launch state machine,
//! the plugin cache and permissions, and the launcher screen's key handling.

pub mod text;
pub mod orchestrator;
pub mod downloader;
pub mod installer;
pub mod parser;
pub mod launch;
pub mod plugins;
pub mod tui;
