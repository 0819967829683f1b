//! Verified core of the Eclipse Linux TUI installer: the install
//! configuration, the wizard's screen state machines, and the text that the
//! installer writes to the target system.

pub mod config;
pub mod initramfs;
pub mod install;
pub mod log;
pub mod sort;
pub mod target_files;
pub mod text;
pub mod wizard;
