//! Logging settings.

use vstd::prelude::*;

verus! {

/// The configured log level, if any.
#[derive(Debug, Clone)]
pub struct LoggerConfig {
    pub level: Option<String>,
}

impl LoggerConfig {
    /// The configured level, if any.
    pub fn level(&self) -> (r: Option<&str>)
        ensures
            r is Some <==> self.level is Some,
            r matches Some(s) ==> self.level matches Some(b) && s@ == b@,
    {
        match &self.level {
            Some(b) => Some(b.as_str()),
            None => None,
        }
    }
}

impl Default for LoggerConfig {
    /// No level configured.
    fn default() -> (r: Self)
        ensures
            r.level is None,
    {
        LoggerConfig { level: None }
    }
}

} // verus!
