//! Packaging-ecosystem classification.
//!
//! A checked-out tree is classified by the marker files it contains: the
//! first file name (in tree-walk order) that appears in a fixed rule table
//! decides the ecosystem and package manager.  The walk itself is the
//! embedding application's job; classification works on the sequence of file
//! names it hands over.

use vstd::prelude::*;
use vstd::string::StringExecFns;

use crate::strutil::str_eq;

verus! {

/// The recognized package managers.
#[derive(Debug, Clone, Copy, PartialEq, Eq, Structural)]
pub enum PackageManager {
    Npm,
    Yarn,
    Pnpm,
    Poetry,
    Maven,
    Gradle,
}

/// The recognized packaging ecosystems, with their manager where one is
/// implied by the marker file.
#[derive(Debug, Clone, Copy, PartialEq, Eq, Structural)]
pub enum PackageType {
    Rust,
    JavaScript(PackageManager),
    Python(PackageManager),
    Java(PackageManager),
    Go,
    Unknown,
}

/// The classification a single marker file name implies, if any.
pub open spec fn spec_rule_of(name: Seq<char>) -> Option<PackageType> {
    if name == "Cargo.toml"@ {
        Some(PackageType::Rust)
    } else if name == "package-lock.json"@ {
        Some(PackageType::JavaScript(PackageManager::Npm))
    } else if name == "yarn.lock"@ {
        Some(PackageType::JavaScript(PackageManager::Yarn))
    } else if name == "pnpm-lock.yaml"@ {
        Some(PackageType::JavaScript(PackageManager::Pnpm))
    } else if name == "package.json"@ {
        Some(PackageType::JavaScript(PackageManager::Npm))
    } else if name == "pyproject.toml"@ {
        Some(PackageType::Python(PackageManager::Poetry))
    } else if name == "pom.xml"@ {
        Some(PackageType::Java(PackageManager::Maven))
    } else if name == "build.gradle"@ {
        Some(PackageType::Java(PackageManager::Gradle))
    } else if name == "go.mod"@ {
        Some(PackageType::Go)
    } else {
        None
    }
}

/// The classification of the file names at or after position `i`: the first
/// name that matches a rule wins, and a tree without markers is `Unknown`.
pub open spec fn spec_detect_from(names: Seq<String>, i: int) -> PackageType
    decreases names.len() - i,
{
    if i < 0 || i >= names.len() {
        PackageType::Unknown
    } else {
        match spec_rule_of(names[i]@) {
            Some(t) => t,
            None => spec_detect_from(names, i + 1),
        }
    }
}

/// The classification of a whole tree, given its file names in walk order.
pub open spec fn spec_detect(names: Seq<String>) -> PackageType {
    spec_detect_from(names, 0)
}

/// The classification a single file name implies, if any.
fn rule_of(name: &str) -> (r: Option<PackageType>)
    ensures
        r == spec_rule_of(name@),
{
    if str_eq(name, "Cargo.toml") {
        Some(PackageType::Rust)
    } else if str_eq(name, "package-lock.json") {
        Some(PackageType::JavaScript(PackageManager::Npm))
    } else if str_eq(name, "yarn.lock") {
        Some(PackageType::JavaScript(PackageManager::Yarn))
    } else if str_eq(name, "pnpm-lock.yaml") {
        Some(PackageType::JavaScript(PackageManager::Pnpm))
    } else if str_eq(name, "package.json") {
        Some(PackageType::JavaScript(PackageManager::Npm))
    } else if str_eq(name, "pyproject.toml") {
        Some(PackageType::Python(PackageManager::Poetry))
    } else if str_eq(name, "pom.xml") {
        Some(PackageType::Java(PackageManager::Maven))
    } else if str_eq(name, "build.gradle") {
        Some(PackageType::Java(PackageManager::Gradle))
    } else if str_eq(name, "go.mod") {
        Some(PackageType::Go)
    } else {
        None
    }
}

/// Classifies a tree from the file names found while walking it, in walk
/// order.  Unreadable paths simply do not appear among the names; they never
/// fail the classification.
pub fn detect_language_and_package_type(names: &Vec<String>) -> (r: PackageType)
    ensures
        r == spec_detect(names@),
{
    let n = names.len();
    let mut i: usize = 0;
    while i < n
        invariant
            n == names@.len(),
            i <= n,
            spec_detect(names@) == spec_detect_from(names@, i as int),
        decreases n - i,
    {
        match rule_of(names[i].as_str()) {
            Some(t) => {
                return t;
            },
            None => {},
        }
        i += 1;
    }
    PackageType::Unknown
}

/// Detection is a function of the walked names alone: two walks of an
/// unmodified tree that list the same names in the same order classify it
/// identically.
pub proof fn lemma_detection_idempotent(first: Seq<String>, second: Seq<String>)
    requires
        first == second,
    ensures
        spec_detect(first) == spec_detect(second),
{
}

/// The generator type tag sent with an SBOM request, if the ecosystem maps
/// to one.
pub open spec fn spec_cdxgen_type(t: PackageType) -> Option<Seq<char>> {
    match t {
        PackageType::Rust => Some("rust"@),
        PackageType::JavaScript(_) => Some("nodejs"@),
        PackageType::Python(_) => Some("python"@),
        PackageType::Java(_) => Some("java"@),
        PackageType::Go => Some("go"@),
        PackageType::Unknown => None,
    }
}

/// The configuration profile keys consulted for an ecosystem, most specific
/// first, the generic `full` profile last.
pub open spec fn spec_cdxgen_profiles(t: PackageType) -> Seq<Seq<char>> {
    match t {
        PackageType::JavaScript(_) => seq!["node"@, "full"@],
        PackageType::Python(_) => seq!["python"@, "full"@],
        PackageType::Java(_) => seq!["java"@, "full"@],
        _ => seq!["full"@],
    }
}

/// The stored package-manager label, if the ecosystem and manager imply one.
pub open spec fn spec_as_str(t: PackageType) -> Option<Seq<char>> {
    match t {
        PackageType::Rust => Some("rust"@),
        PackageType::JavaScript(PackageManager::Npm) => Some("npm"@),
        PackageType::JavaScript(PackageManager::Yarn) => Some("yarn"@),
        PackageType::JavaScript(PackageManager::Pnpm) => Some("pnpm"@),
        PackageType::Python(PackageManager::Poetry) => Some("poetry"@),
        PackageType::Java(PackageManager::Maven) => Some("maven"@),
        PackageType::Java(PackageManager::Gradle) => Some("gradle"@),
        PackageType::Go => Some("go"@),
        _ => None,
    }
}

impl PackageType {
    /// The generator type tag sent with an SBOM request, if any.
    pub fn cdxgen_type(&self) -> (r: Option<&'static str>)
        ensures
            r is Some <==> spec_cdxgen_type(*self) is Some,
            r matches Some(s) ==> spec_cdxgen_type(*self) == Some(s@),
    {
        match *self {
            PackageType::Rust => Some("rust"),
            PackageType::JavaScript(_) => Some("nodejs"),
            PackageType::Python(_) => Some("python"),
            PackageType::Java(_) => Some("java"),
            PackageType::Go => Some("go"),
            PackageType::Unknown => None,
        }
    }

    /// The configuration profile keys consulted for this ecosystem, in order.
    pub fn cdxgen_profiles(&self) -> (r: Vec<String>)
        ensures
            r@.map_values(|s: String| s@) == spec_cdxgen_profiles(*self),
    {
        let mut v: Vec<String> = Vec::new();
        match *self {
            PackageType::JavaScript(_) => {
                v.push(String::from_str("node"));
                v.push(String::from_str("full"));
            },
            PackageType::Python(_) => {
                v.push(String::from_str("python"));
                v.push(String::from_str("full"));
            },
            PackageType::Java(_) => {
                v.push(String::from_str("java"));
                v.push(String::from_str("full"));
            },
            _ => {
                v.push(String::from_str("full"));
            },
        }
        proof {
            assert(v@.map_values(|s: String| s@) =~= spec_cdxgen_profiles(*self));
        }
        v
    }

    /// The stored package-manager label, if any.
    pub fn as_str(&self) -> (r: Option<&'static str>)
        ensures
            r is Some <==> spec_as_str(*self) is Some,
            r matches Some(s) ==> spec_as_str(*self) == Some(s@),
    {
        match *self {
            PackageType::Rust => Some("rust"),
            PackageType::JavaScript(PackageManager::Npm) => Some("npm"),
            PackageType::JavaScript(PackageManager::Yarn) => Some("yarn"),
            PackageType::JavaScript(PackageManager::Pnpm) => Some("pnpm"),
            PackageType::Python(PackageManager::Poetry) => Some("poetry"),
            PackageType::Java(PackageManager::Maven) => Some("maven"),
            PackageType::Java(PackageManager::Gradle) => Some("gradle"),
            PackageType::Go => Some("go"),
            _ => None,
        }
    }
}

} // verus!
