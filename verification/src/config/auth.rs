//! Authentication settings: a path allow-list and a switch that turns
//! authentication off altogether.

use vstd::prelude::*;

verus! {

/// Authentication settings.
#[derive(Debug, Clone)]
pub struct AuthConfig {
    pub allow_list: Vec<String>,
    pub userless: bool,
}

impl AuthConfig {
    /// The path prefixes that bypass authentication.
    pub fn allow_list(&self) -> (r: &Vec<String>)
        ensures
            r@ == self.allow_list@,
    {
        &self.allow_list
    }

    /// Whether every request runs without a user.
    pub fn userless(&self) -> (r: bool)
        ensures
            r == self.userless,
    {
        self.userless
    }
}

impl Default for AuthConfig {
    /// Authentication on, nothing allow-listed.
    fn default() -> (r: Self)
        ensures
            r.allow_list@.len() == 0,
            !r.userless,
    {
        AuthConfig { allow_list: Vec::new(), userless: false }
    }
}

} // verus!
