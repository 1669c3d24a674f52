//! Verified core of the Vodia PBX installer wizard: release URLs, manifest
//! handling, path safety, script text and the decisions of the CLI and GUI.

pub mod text;
pub mod cli;
pub mod credentials;
pub mod gui_state;
pub mod installer;
pub mod manifest_installer;
pub mod releases;
pub mod setup_runner;
pub mod uninstaller;
pub mod windows_admin;
