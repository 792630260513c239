//! Drivers for the external tools the pipeline invokes.

pub mod archive;
pub mod creation_kit;
pub mod dll_manager;
pub mod fo4edit;
