//! Connection settings for the remote issue tracker. Reading them from the
//! environment and talking to the service are the event loop's business;
//! this crate only carries the three values.

use vstd::prelude::*;

verus! {

/// The service base address, the account, and its access credential.
#[derive(Debug, Clone, PartialEq, Eq)]
pub struct JiraConfig {
    pub base_url: String,
    pub username: String,
    pub api_token: String,
}

impl JiraConfig {
    pub fn new(base_url: String, username: String, api_token: String) -> (r: Self)
        ensures
            r.base_url == base_url,
            r.username == username,
            r.api_token == api_token,
    {
        JiraConfig { base_url, username, api_token }
    }
}

} // verus!
