//! Core logic of a keyboard-driven issue-tracker dashboard: modal key
//! dispatch with vim-style repeat counts, line editing, selection and
//! scrolling over a list, and an adaptive column layout for the issue table.
//!
//! Terminal setup, drawing, and the remote fetch that populates the issue
//! list are outside collaborators; the event loop hands this crate plain
//! key events and list lengths and reads back the updated state.

pub mod app;
pub mod input;
pub mod issue;
pub mod jira;
pub mod keys;
pub mod selection;
pub mod text;
pub mod ui;
