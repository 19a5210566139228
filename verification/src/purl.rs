//! Package URLs (PURLs).
//!
//! A PURL identifies a package across ecosystems
//! (`pkg:npm/left-pad@1.3.0`).  Parsing follows the PURL specification and is
//! delegated to the `packageurl` crate; the parts a parse yields are a
//! function of the text alone, named here by `purl_core_of`.

use std::str::FromStr;

use vstd::prelude::*;

verus! {

/// The parts of a parsed PURL that the pipeline stores and mirrors.
#[derive(Debug, Clone)]
pub struct PurlParts {
    /// The package type (`npm`, `maven`, `pypi`, ...).
    pub ty: String,
    /// The namespace/group, if any.
    pub namespace: Option<String>,
    /// The package name.
    pub name: String,
    /// The version, if any.
    pub version: Option<String>,
    /// The qualifier key/value pairs, in no particular order.
    pub qualifiers: Vec<(String, String)>,
}

/// The deterministic portion of a parse: everything but the qualifiers,
/// whose order the parser leaves open.
pub ghost struct PurlCore {
    pub ty: Seq<char>,
    pub namespace: Option<Seq<char>>,
    pub name: Seq<char>,
    pub version: Option<Seq<char>>,
}

impl PurlParts {
    /// The deterministic portion of these parts.
    pub open spec fn core_view(&self) -> PurlCore {
        PurlCore {
            ty: self.ty@,
            namespace: match self.namespace {
                Some(n) => Some(n@),
                None => None,
            },
            name: self.name@,
            version: match self.version {
                Some(v) => Some(v@),
                None => None,
            },
        }
    }
}

/// What parsing a text as a PURL yields: nothing when the text is not a
/// valid PURL, otherwise its type, namespace, name and version.
pub uninterp spec fn purl_core_of(s: Seq<char>) -> Option<PurlCore>;

/// Relies on packageurl's `PackageUrl::from_str` and its accessors: a valid
/// PURL text parses into type, namespace, name, version and qualifiers, and
/// the outcome is a function of the text alone (the qualifier order is not).
#[verifier::external_body]
pub fn parse_purl(s: &str) -> (r: Option<PurlParts>)
    ensures
        r is Some <==> purl_core_of(s@) is Some,
        r matches Some(p) ==> purl_core_of(s@) == Some(p.core_view()),
{
    match packageurl::PackageUrl::from_str(s) {
        Ok(p) => Some(PurlParts {
            ty: p.ty().to_string(),
            namespace: p.namespace().map(|n| n.to_string()),
            name: p.name().to_string(),
            version: p.version().map(|v| v.to_string()),
            qualifiers: p.qualifiers().iter().map(|(k, v)| (k.to_string(), v.to_string())).collect(),
        }),
        Err(_) => None,
    }
}

} // verus!
