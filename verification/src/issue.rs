//! A minimal issue record: a title and a free-form description.

use vstd::prelude::*;

verus! {

/// A bare issue as entered by the user.
#[derive(Debug, Clone, PartialEq, Eq)]
pub struct Issue {
    pub title: String,
    pub description: String,
}

impl Issue {
    pub fn new(title: String, description: String) -> (r: Self)
        ensures
            r.title == title,
            r.description == description,
    {
        Issue { title, description }
    }
}

} // verus!
