//! Event handling, device behaviour and command-line decisions of a
//! macOS keyboard remapper.

pub mod event;
pub mod device;
pub mod config;
pub mod options;
pub mod cli;
