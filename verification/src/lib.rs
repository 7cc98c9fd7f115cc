//! QuickNote: the verified core of a compact terminal note-taking tool.
//!
//! The library holds the application's modes, its notes and their filtering,
//! and the state machine that turns key presses into mode changes and edits
//! of the note store. Terminal drawing and file access live outside it.

pub mod mode;
pub mod note;
pub mod text;
pub mod selection;
pub mod key;
pub mod textarea;
pub mod notes;
pub mod app;
pub mod screen;
