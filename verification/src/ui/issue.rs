//! The issue record shown in the table, and the parsers that classify the
//! tracker's free-form priority and status names.

use crate::text::{seq_contains, seq_starts_with, str_contains, str_starts_with};
use vstd::prelude::*;
use vstd::string::StringExecFns;

verus! {

/// An issue as shown in the list and the sidebar. Fields the tracker did
/// not supply stay empty; the story-point estimate is carried as the text
/// it is rendered with.
#[derive(Debug, Clone, PartialEq, Eq)]
pub struct Issue {
    pub id: String,
    pub summary: String,
    pub description: String,
    pub issue_type: Option<String>,
    pub status: Option<Status>,
    pub priority: Option<Priority>,
    pub story_points: Option<String>,
    pub parent_epic: Option<String>,
}

/// The priority of an issue, classified from the tracker's name for it.
#[derive(Debug, Clone, PartialEq, Eq)]
pub enum Priority {
    High,
    Medium,
    Low,
    Other(String),
}

/// The workflow status of an issue, classified from the tracker's name.
#[derive(Debug, Clone, PartialEq, Eq)]
pub enum Status {
    Todo,
    InProgress,
    Review,
    Test,
    Done,
    Other(String),
}

/// What `s` lowercases to.
pub uninterp spec fn lower_of(s: Seq<char>) -> Seq<char>;

/// Relies on str::to_lowercase: the lowercase form depends on the
/// characters alone.
#[verifier::external_body]
fn lowercase_str(s: &str) -> (r: String)
    ensures
        r@ == lower_of(s@),
{
    s.to_lowercase()
}

impl Priority {
    /// Classifies the tracker's priority name: matched by the prefix of its
    /// lowercase form, anything unrecognised kept verbatim.
    pub fn from_jira_str(s: &str) -> (r: Self)
        ensures
            ({
                let l = lower_of(s@);
                &&& seq_starts_with(l, "high"@) ==> r == Priority::High
                &&& !seq_starts_with(l, "high"@) && seq_starts_with(l, "med"@) ==> r
                    == Priority::Medium
                &&& !seq_starts_with(l, "high"@) && !seq_starts_with(l, "med"@)
                    && seq_starts_with(l, "low"@) ==> r == Priority::Low
                &&& !seq_starts_with(l, "high"@) && !seq_starts_with(l, "med"@)
                    && !seq_starts_with(l, "low"@) ==> (r matches Priority::Other(t) && t@
                    == s@)
            }),
    {
        let s_lower: String = lowercase_str(s);
        if str_starts_with(s_lower.as_str(), "high") {
            Priority::High
        } else if str_starts_with(s_lower.as_str(), "med") {
            Priority::Medium
        } else if str_starts_with(s_lower.as_str(), "low") {
            Priority::Low
        } else {
            Priority::Other(String::from_str(s))
        }
    }

    /// The display name of the priority.
    pub fn as_str(&self) -> (r: &str)
        ensures
            match self {
                Priority::High => r@ == "High"@,
                Priority::Medium => r@ == "Medium"@,
                Priority::Low => r@ == "Low"@,
                Priority::Other(t) => r@ == t@,
            },
    {
        match self {
            Priority::High => "High",
            Priority::Medium => "Medium",
            Priority::Low => "Low",
            Priority::Other(t) => t.as_str(),
        }
    }
}

impl Status {
    /// Classifies the tracker's status name: matched by searching its
    /// lowercase form, anything unrecognised kept verbatim.
    pub fn from_jira_str(s: &str) -> (r: Self)
        ensures
            ({
                let l = lower_of(s@);
                &&& seq_contains(l, "todo"@) ==> r == Status::Todo
                &&& !seq_contains(l, "todo"@) && seq_contains(l, "progress"@) ==> r
                    == Status::InProgress
                &&& !seq_contains(l, "todo"@) && !seq_contains(l, "progress"@) && seq_contains(
                    l,
                    "review"@,
                ) ==> r == Status::Review
                &&& !seq_contains(l, "todo"@) && !seq_contains(l, "progress"@) && !seq_contains(
                    l,
                    "review"@,
                ) && seq_contains(l, "test"@) ==> r == Status::Test
                &&& !seq_contains(l, "todo"@) && !seq_contains(l, "progress"@) && !seq_contains(
                    l,
                    "review"@,
                ) && !seq_contains(l, "test"@) && seq_contains(l, "done"@) ==> r == Status::Done
                &&& !seq_contains(l, "todo"@) && !seq_contains(l, "progress"@) && !seq_contains(
                    l,
                    "review"@,
                ) && !seq_contains(l, "test"@) && !seq_contains(l, "done"@) ==> (r
                    matches Status::Other(t) && t@ == s@)
            }),
    {
        let s_lower: String = lowercase_str(s);
        if str_contains(s_lower.as_str(), "todo") {
            Status::Todo
        } else if str_contains(s_lower.as_str(), "progress") {
            Status::InProgress
        } else if str_contains(s_lower.as_str(), "review") {
            Status::Review
        } else if str_contains(s_lower.as_str(), "test") {
            Status::Test
        } else if str_contains(s_lower.as_str(), "done") {
            Status::Done
        } else {
            Status::Other(String::from_str(s))
        }
    }

    /// The display name of the status.
    pub fn as_str(&self) -> (r: &str)
        ensures
            match self {
                Status::Todo => r@ == "Todo"@,
                Status::InProgress => r@ == "In Progress"@,
                Status::Review => r@ == "Review"@,
                Status::Test => r@ == "Test"@,
                Status::Done => r@ == "Done"@,
                Status::Other(t) => r@ == t@,
            },
    {
        match self {
            Status::Todo => "Todo",
            Status::InProgress => "In Progress",
            Status::Review => "Review",
            Status::Test => "Test",
            Status::Done => "Done",
            Status::Other(t) => t.as_str(),
        }
    }
}

impl Issue {
    /// A fresh issue holding only a summary and a description.
    pub fn new(summary: String, description: String) -> (r: Self)
        ensures
            r.id@.len() == 0,
            r.summary == summary,
            r.description == description,
            r.issue_type is None,
            r.status is None,
            r.priority is None,
            r.story_points is None,
            r.parent_epic is None,
    {
        Issue {
            id: String::new(),
            summary,
            description,
            issue_type: None,
            status: None,
            priority: None,
            story_points: None,
            parent_epic: None,
        }
    }
}

} // verus!
