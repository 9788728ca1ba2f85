//! The interactive surface of the dashboard: key handling for both input
//! modes, the issue record shown in the table, and the adaptive column
//! layout. Drawing itself is left to the caller.

pub mod input;
pub mod issue;
pub mod issue_list;
