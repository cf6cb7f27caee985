//! Command handlers and the drag-and-drop event adapter of a small desktop shell.
//!
//! The library decides what each command replies and which named event, with which
//! payload, the user interface receives for each native window event. Running the
//! window, reaching the operating system and delivering events is left to the host.

pub mod commands;
pub mod drag_drop;
