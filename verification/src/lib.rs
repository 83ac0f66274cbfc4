//! The decisions of the SPT modpack updater, verified: reading git's output,
//! the order of its operations, the interface's state machine, and what the
//! interface shows. The program around the library performs the I/O.
pub mod text;
pub mod types;
pub mod progress;
pub mod git;
pub mod updater;
pub mod manifest;
pub mod jobs;
pub mod tui;
pub mod spt;
pub mod launch;
pub mod screen;
pub mod laws;
