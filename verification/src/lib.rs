//! Action routing and focus delegation for a terminal grid editor.
//!
//! Raw terminal events are translated into typed [`action::Action`] values,
//! queued on the [`bus::ActionBus`], and routed through a page to its focused
//! leaf component.  The central component is a spreadsheet-like cell grid
//! with a modal in-place editor and a delete-confirmation overlay.  All
//! state transitions are pure functions of the previous state and the
//! incoming action; rendering and terminal I/O live outside this crate.

pub mod action;
pub mod app;
pub mod bus;
pub mod components;
pub mod counter;
pub mod csv;
pub mod csv_table;
pub mod details;
pub mod home;
pub mod input;
pub mod table;
pub mod text;
