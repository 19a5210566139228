//! HTTP server settings with their defaults.

use vstd::prelude::*;

verus! {

/// Settings of the request-handling server.
#[derive(Debug, Clone)]
pub struct ServerConfig {
    pub port: Option<u16>,
    pub timeout_seconds: Option<u64>,
    pub max_body_size_bytes: Option<usize>,
}

impl ServerConfig {
    /// The listening port; 8080 when unset.
    pub fn port(&self) -> (r: u16)
        ensures
            r == (match self.port {
                Some(p) => p,
                None => 8080u16,
            }),
    {
        match self.port {
            Some(p) => p,
            None => 8080,
        }
    }

    /// The per-request timeout in seconds; 120 when unset.
    pub fn timeout_seconds(&self) -> (r: u64)
        ensures
            r == (match self.timeout_seconds {
                Some(t) => t,
                None => 120u64,
            }),
    {
        match self.timeout_seconds {
            Some(t) => t,
            None => 120,
        }
    }

    /// The request-body cap in bytes; ten mebibytes when unset.
    pub fn max_body_size_bytes(&self) -> (r: usize)
        ensures
            r == (match self.max_body_size_bytes {
                Some(n) => n,
                None => 10485760usize,
            }),
    {
        match self.max_body_size_bytes {
            Some(n) => n,
            None => 10485760,
        }
    }
}

} // verus!
