//! Identity values handed through the request layer.
//!
//! Token signing and verification belong to the embedding application; this
//! module holds the identity data and the string rules around it: how a
//! principal is folded into a token subject and recovered from one, and how
//! a bearer token is read out of an authorization header.

use vstd::prelude::*;
use vstd::string::StrSliceExecFns;
use vstd::string::StringExecFns;

use crate::strutil::{push_char, starts_with, str_starts_with};

verus! {

/// An authenticated caller.
#[derive(Debug, Clone)]
pub struct Principal {
    pub id: String,
    pub name: String,
}

/// The claims carried by a token.
#[derive(Debug, Clone)]
pub struct Claims {
    pub jti: String,
    pub sub: String,
    pub aud: String,
    pub iss: String,
    pub iat: u64,
    pub exp: u64,
}

/// The token subject encoding a principal: its id and name joined by a
/// colon.
pub open spec fn spec_sub_of(p: Principal) -> Seq<char> {
    p.id@ + seq![':'] + p.name@
}

impl Principal {
    /// Folds this principal into a token subject.
    pub fn sub(&self) -> (r: String)
        ensures
            r@ == spec_sub_of(*self),
    {
        let mut out = self.id.clone();
        push_char(&mut out, ':');
        out.append(self.name.as_str());
        out
    }
}

/// Recovers a principal from a token subject: everything before the first
/// colon is the id, everything after it the name.  A subject without a colon
/// carries no principal.
pub fn principal_of_sub(sub: &str) -> (r: Option<Principal>)
    ensures
        r is Some <==> exists|i: int| 0 <= i < sub@.len() && sub@[i] == ':',
        r matches Some(p) ==> exists|i: int|
            {
                &&& 0 <= i < sub@.len()
                &&& sub@[i] == ':'
                &&& forall|j: int| 0 <= j < i ==> sub@[j] != ':'
                &&& p.id@ == sub@.subrange(0, i)
                &&& p.name@ == sub@.subrange(i + 1, sub@.len() as int)
            },
{
    let len = sub.unicode_len();
    let mut i: usize = 0;
    while i < len
        invariant
            len == sub@.len(),
            i <= len,
            forall|j: int| 0 <= j < i ==> sub@[j] != ':',
        decreases len - i,
    {
        if sub.get_char(i) == ':' {
            let id = sub.substring_char(0, i).to_owned();
            let name = sub.substring_char(i + 1, len).to_owned();
            return Some(Principal { id, name });
        }
        i += 1;
    }
    None
}

/// Reads the bearer token out of an authorization header: the header must be
/// present and start with `Bearer `; what follows that prefix is the token.
/// The error text says which of the two rules failed.
pub fn extract_bearer(header: Option<&str>) -> (r: Result<String, &'static str>)
    ensures
        header is None ==> (r matches Err(m) && m@ == "Authorization header missing"@),
        header matches Some(h) ==> (!starts_with(h@, "Bearer "@) ==> (r matches Err(m) && m@
            == "Malformed Authorization header"@)),
        header matches Some(h) ==> (starts_with(h@, "Bearer "@) ==> (r matches Ok(t) && t@
            == h@.subrange("Bearer "@.len() as int, h@.len() as int))),
{
    match header {
        None => Err("Authorization header missing"),
        Some(raw) => {
            if str_starts_with(raw, "Bearer ") {
                let plen = "Bearer ".unicode_len();
                Ok(raw.substring_char(plen, raw.unicode_len()).to_owned())
            } else {
                Err("Malformed Authorization header")
            }
        },
    }
}

/// Builds the claims of a freshly issued token: the subject encodes the
/// principal, audience and issuer are taken as configured, and the token
/// expires `lifetime_seconds` after `issued_at`.
pub fn build_claims(
    principal: &Principal,
    jti: String,
    audience: &str,
    issuer: &str,
    issued_at: u64,
    lifetime_seconds: u64,
) -> (r: Claims)
    requires
        issued_at + lifetime_seconds <= u64::MAX,
    ensures
        r.jti == jti,
        r.sub@ == spec_sub_of(*principal),
        r.aud@ == audience@,
        r.iss@ == issuer@,
        r.iat == issued_at,
        r.exp == issued_at + lifetime_seconds,
{
    Claims {
        jti,
        sub: principal.sub(),
        aud: audience.to_owned(),
        iss: issuer.to_owned(),
        iat: issued_at,
        exp: issued_at + lifetime_seconds,
    }
}

} // verus!
