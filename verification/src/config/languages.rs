//! Per-ecosystem SBOM-service settings.
//!
//! Each entry maps a profile key (an ecosystem name, or the generic `full`
//! profile) to a service endpoint that can generate SBOM documents for it.

use vstd::prelude::*;

use crate::strutil::{lowered, str_eq, to_lower};

verus! {

/// The default SBOM-request timeout, in seconds.
pub const DEFAULT_SBOM_TIMEOUT_SECONDS: u64 = 120;

/// One profile: whether it is enabled and which endpoint serves it.
#[derive(Debug, Clone)]
pub struct LanguageServiceConfig {
    pub enabled: Option<bool>,
    pub cdxgen_url: Option<String>,
}

impl LanguageServiceConfig {
    /// Whether this profile may be used; absent means no.
    pub fn enabled(&self) -> (r: bool)
        ensures
            r == self.spec_enabled(),
    {
        match self.enabled {
            Some(b) => b,
            None => false,
        }
    }

    /// Spec counterpart of `enabled`.
    pub open spec fn spec_enabled(&self) -> bool {
        match self.enabled {
            Some(b) => b,
            None => false,
        }
    }

    /// The profile's endpoint, if any.
    pub fn cdxgen_url(&self) -> (r: Option<&str>)
        ensures
            r is Some <==> self.cdxgen_url is Some,
            r matches Some(s) ==> self.cdxgen_url matches Some(b) && s@ == b@,
    {
        match &self.cdxgen_url {
            Some(b) => Some(b.as_str()),
            None => None,
        }
    }
}

/// The profile table plus the request timeout.  Lookups fall back from the
/// key as written to its ASCII-lowercase form; the first entry with the
/// sought key answers, so a table whose keys are unique — as a configuration
/// file yields — behaves as a map, and duplicate keys shadow later entries.
#[derive(Debug, Clone)]
pub struct LanguagesConfig {
    pub timeout_seconds: Option<u64>,
    pub entries: Vec<(String, LanguageServiceConfig)>,
}

/// The first entry at or after position `i` whose key reads exactly `k`.
pub open spec fn spec_lookup_from(
    entries: Seq<(String, LanguageServiceConfig)>,
    k: Seq<char>,
    i: int,
) -> Option<LanguageServiceConfig>
    decreases entries.len() - i,
{
    if i < 0 || i >= entries.len() {
        None
    } else if entries[i].0@ == k {
        Some(entries[i].1)
    } else {
        spec_lookup_from(entries, k, i + 1)
    }
}

/// The entry for key `k`: an exact match, or, where `k` carries uppercase
/// letters, a match on its lowered form.
pub open spec fn spec_get(
    entries: Seq<(String, LanguageServiceConfig)>,
    k: Seq<char>,
) -> Option<LanguageServiceConfig> {
    match spec_lookup_from(entries, k, 0) {
        Some(c) => Some(c),
        None => if lowered(k) == k {
            None
        } else {
            spec_lookup_from(entries, lowered(k), 0)
        },
    }
}

/// The endpoint of the first usable candidate profile at or after position
/// `i`: the profile must exist, be enabled and carry a non-empty endpoint.
pub open spec fn spec_resolve_from(
    entries: Seq<(String, LanguageServiceConfig)>,
    cands: Seq<Seq<char>>,
    i: int,
) -> Option<Seq<char>>
    decreases cands.len() - i,
{
    if i < 0 || i >= cands.len() {
        None
    } else {
        match spec_get(entries, cands[i]) {
            Some(cfg) => if cfg.spec_enabled() && (cfg.cdxgen_url matches Some(u) && u@.len()
                > 0) {
                Some(cfg.cdxgen_url->Some_0@)
            } else {
                spec_resolve_from(entries, cands, i + 1)
            },
            None => spec_resolve_from(entries, cands, i + 1),
        }
    }
}

impl LanguagesConfig {
    /// Looks a profile up by key, falling back to the lowered key.
    pub fn get(&self, key: &str) -> (r: Option<&LanguageServiceConfig>)
        ensures
            r is Some <==> spec_get(self.entries@, key@) is Some,
            r matches Some(c) ==> spec_get(self.entries@, key@) == Some(*c),
    {
        match self.lookup(key) {
            Some(c) => Some(c),
            None => {
                let low = to_lower(key);
                if str_eq(low.as_str(), key) {
                    None
                } else {
                    self.lookup(low.as_str())
                }
            },
        }
    }

    /// First entry whose key reads exactly `key`.
    fn lookup(&self, key: &str) -> (r: Option<&LanguageServiceConfig>)
        ensures
            r is Some <==> spec_lookup_from(self.entries@, key@, 0) is Some,
            r matches Some(c) ==> spec_lookup_from(self.entries@, key@, 0) == Some(*c),
    {
        let n = self.entries.len();
        let mut i: usize = 0;
        while i < n
            invariant
                n == self.entries@.len(),
                i <= n,
                spec_lookup_from(self.entries@, key@, 0) == spec_lookup_from(
                    self.entries@,
                    key@,
                    i as int,
                ),
            decreases n - i,
        {
            if str_eq(self.entries[i].0.as_str(), key) {
                return Some(&self.entries[i].1);
            }
            i += 1;
        }
        None
    }

    /// The endpoint of the first enabled candidate profile that carries a
    /// non-empty one; nothing when the table is empty or no candidate is
    /// usable.
    pub fn resolve_base_url(&self, candidates: &Vec<String>) -> (r: Option<String>)
        ensures
            r is Some <==> spec_resolve_from(
                self.entries@,
                candidates@.map_values(|c: String| c@),
                0,
            ) is Some,
            r matches Some(u) ==> spec_resolve_from(
                self.entries@,
                candidates@.map_values(|c: String| c@),
                0,
            ) == Some(u@),
    {
        let n = candidates.len();
        let mut i: usize = 0;
        while i < n
            invariant
                n == candidates@.len(),
                i <= n,
                spec_resolve_from(self.entries@, candidates@.map_values(|c: String| c@), 0)
                    == spec_resolve_from(
                    self.entries@,
                    candidates@.map_values(|c: String| c@),
                    i as int,
                ),
            decreases n - i,
        {
            match self.get(candidates[i].as_str()) {
                Some(cfg) => {
                    if cfg.enabled() {
                        match cfg.cdxgen_url() {
                            Some(url) if !url.is_empty() => {
                                return Some(url.to_owned());
                            },
                            _ => {},
                        }
                    }
                },
                None => {},
            }
            i += 1;
        }
        None
    }

    /// Whether the profile table has no entries.
    pub fn is_empty(&self) -> (r: bool)
        ensures
            r == (self.entries@.len() == 0),
    {
        self.entries.len() == 0
    }

    /// The request timeout in seconds; the default when unset.
    pub fn timeout_seconds(&self) -> (r: u64)
        ensures
            r == (match self.timeout_seconds {
                Some(t) => t,
                None => DEFAULT_SBOM_TIMEOUT_SECONDS as u64,
            }),
    {
        match self.timeout_seconds {
            Some(t) => t,
            None => DEFAULT_SBOM_TIMEOUT_SECONDS,
        }
    }
}

impl Default for LanguagesConfig {
    /// No profiles, default timeout.
    fn default() -> (r: Self)
        ensures
            r.timeout_seconds is None,
            r.entries@.len() == 0,
    {
        LanguagesConfig { timeout_seconds: None, entries: Vec::new() }
    }
}

} // verus!
