//! Token-signing settings with their defaults.

use vstd::prelude::*;

use crate::strutil::str_eq;

verus! {

/// The supported signing algorithms.
#[derive(Debug, Clone, Copy, PartialEq, Eq, Structural)]
pub enum JwtAlgorithm {
    Hs256,
    Hs384,
    Hs512,
}

/// Token-signing settings.
#[derive(Debug, Clone)]
pub struct JwtConfig {
    pub secret: Option<String>,
    pub expiration_seconds: Option<u64>,
    pub audience: Option<String>,
    pub issuer: Option<String>,
    pub algorithm: Option<String>,
}

/// The algorithm selected by an optional configuration string: `HS384` and
/// `HS512` are recognized, everything else (including nothing) selects
/// `HS256`.
pub open spec fn spec_algorithm(a: Option<String>) -> JwtAlgorithm {
    match a {
        Some(s) => if s@ == "HS384"@ {
            JwtAlgorithm::Hs384
        } else if s@ == "HS512"@ {
            JwtAlgorithm::Hs512
        } else {
            JwtAlgorithm::Hs256
        },
        None => JwtAlgorithm::Hs256,
    }
}

impl JwtConfig {
    /// The signing secret; a fixed development default when unset.
    pub fn secret(&self) -> (r: &str)
        ensures
            self.secret matches Some(s) ==> r@ == s@,
            self.secret is None ==> r@ == "default_secret_key"@,
    {
        match &self.secret {
            Some(s) => s.as_str(),
            None => "default_secret_key",
        }
    }

    /// The token lifetime in seconds; one hour when unset.
    pub fn expiration(&self) -> (r: u64)
        ensures
            r == (match self.expiration_seconds {
                Some(e) => e,
                None => 3600u64,
            }),
    {
        match self.expiration_seconds {
            Some(e) => e,
            None => 3600,
        }
    }

    /// The expected audience; a fixed default when unset.
    pub fn audience(&self) -> (r: &str)
        ensures
            self.audience matches Some(s) ==> r@ == s@,
            self.audience is None ==> r@ == "my_audience"@,
    {
        match &self.audience {
            Some(s) => s.as_str(),
            None => "my_audience",
        }
    }

    /// The expected issuer; a fixed default when unset.
    pub fn issuer(&self) -> (r: &str)
        ensures
            self.issuer matches Some(s) ==> r@ == s@,
            self.issuer is None ==> r@ == "my_issuer"@,
    {
        match &self.issuer {
            Some(s) => s.as_str(),
            None => "my_issuer",
        }
    }

    /// The selected signing algorithm.
    pub fn algorithm(&self) -> (r: JwtAlgorithm)
        ensures
            r == spec_algorithm(self.algorithm),
    {
        match &self.algorithm {
            Some(s) => {
                if str_eq(s.as_str(), "HS384") {
                    JwtAlgorithm::Hs384
                } else if str_eq(s.as_str(), "HS512") {
                    JwtAlgorithm::Hs512
                } else {
                    JwtAlgorithm::Hs256
                }
            },
            None => JwtAlgorithm::Hs256,
        }
    }
}

impl Default for JwtConfig {
    /// Nothing configured; every getter answers its default.
    fn default() -> (r: Self)
        ensures
            r.secret is None,
            r.expiration_seconds is None,
            r.audience is None,
            r.issuer is None,
            r.algorithm is None,
    {
        JwtConfig {
            secret: None,
            expiration_seconds: None,
            audience: None,
            issuer: None,
            algorithm: None,
        }
    }
}

} // verus!
