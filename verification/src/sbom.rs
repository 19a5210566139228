//! SBOM documents: requesting one and extracting its component list.
//!
//! The generation service answers an SBOM as JSON; only its `components`
//! array matters here, every other part of the document is ignored.  The
//! decoding is delegated to `serde_json` behind one trusted item whose
//! outcome is named, so everything downstream is pinned to the document.

use vstd::prelude::*;
use vstd::string::StringExecFns;

use crate::config::languages::LanguagesConfig;
use crate::config::languages::spec_resolve_from;
use crate::ecosystem::{spec_cdxgen_profiles, spec_cdxgen_type, PackageType};
use crate::errors::RegisterError;
use crate::strutil::{opt_view, trim_trailing_slashes, without_trailing_slashes};

verus! {

/// One component of an SBOM document: its back-reference, package URL,
/// resolved version and scope, each optional.
#[derive(Debug, Clone)]
pub struct SbomComponent {
    pub bom_ref: Option<String>,
    pub purl: Option<String>,
    pub version: Option<String>,
    pub scope: Option<String>,
}

/// The view of one component: its back-reference, package URL, version and
/// scope.
pub open spec fn component_fields(c: SbomComponent) -> (
    Option<Seq<char>>,
    Option<Seq<char>>,
    Option<Seq<char>>,
    Option<Seq<char>>,
) {
    (opt_view(c.bom_ref), opt_view(c.purl), opt_view(c.version), opt_view(c.scope))
}

/// What extracting the `components` member of a text yields; the outcome is
/// a function of the text alone.  Nothing comes back when the text is
/// malformed: not JSON, not a JSON object, a `components` member that is not
/// an array, a component that is not an object, or a component field that is
/// neither a string nor null.  Otherwise the result holds one
/// (bom-ref, purl, version, scope) tuple per component, in document order,
/// with absent and null fields empty; a document without a `components`
/// member has no components.  Every other part of the document is ignored.
pub uninterp spec fn sbom_components_of(s: Seq<char>) -> Option<
    Seq<(Option<Seq<char>>, Option<Seq<char>>, Option<Seq<char>>, Option<Seq<char>>)>,
>;

#[verifier::external_type_specification]
#[verifier::external_body]
pub struct ExValue(serde_json::Value);

/// Relies on serde_json's `Value` accessors `as_object`, `get`, `is_null`
/// and `as_str`: reads the four known fields of one component object,
/// strictly — nothing comes back unless the component is an object whose
/// present fields are strings or null.
#[verifier::external_body]
fn component_of(item: &serde_json::Value) -> (r: Option<SbomComponent>) {
    let m = item.as_object()?;
    let field = |k: &str| match m.get(k) {
        None => Some(None),
        Some(v) if v.is_null() => Some(None),
        Some(v) => v.as_str().map(|t| Some(t.to_string())),
    };
    Some(SbomComponent {
        bom_ref: field("bom-ref")?,
        purl: field("purl")?,
        version: field("version")?,
        scope: field("scope")?,
    })
}

/// Relies on serde_json's `from_str` and the `Value` accessors `as_object`,
/// `get` and `as_array`: decodes the text and reads every entry of its
/// `components` array through `component_of`; the outcome is a function of
/// the text alone, named by `sbom_components_of`.
#[verifier::external_body]
fn decode_components(s: &str) -> (r: Option<Vec<SbomComponent>>)
    ensures
        r is Some <==> sbom_components_of(s@) is Some,
        r matches Some(cs) ==> cs@.map_values(|c: SbomComponent| component_fields(c))
            == sbom_components_of(s@)->Some_0,
{
    let doc: serde_json::Value = serde_json::from_str(s).ok()?;
    let list = match doc.as_object()?.get("components") {
        None => return Some(Vec::new()),
        Some(c) => c.as_array()?,
    };
    list.iter().map(component_of).collect()
}

/// Extracts the component list of an SBOM document, ignoring all other
/// document structure.  A document without a `components` member has no
/// components; a malformed document — not a JSON object, a `components`
/// member that is not an array, a component that is not an object, or a
/// component field that is neither a string nor null — is a hard failure,
/// never a partial result.
pub fn parse_cyclonedx_components(sbom_json: &str) -> (r: Result<
    Vec<SbomComponent>,
    RegisterError,
>)
    ensures
        r is Ok <==> sbom_components_of(sbom_json@) is Some,
        r matches Ok(cs) ==> cs@.map_values(|c: SbomComponent| component_fields(c))
            == sbom_components_of(sbom_json@)->Some_0,
        r is Err ==> (r matches Err(e) && e is SbomParse),
{
    match decode_components(sbom_json) {
        Some(cs) => Ok(cs),
        None => Err(RegisterError::SbomParse),
    }
}

/// A fully determined SBOM request: the endpoint to call and the query
/// parameters to send, in order.
#[derive(Debug, Clone)]
pub struct SbomRequest {
    /// The URL to issue a GET against.
    pub endpoint: String,
    /// The query parameters, in order.
    pub query: Vec<(String, String)>,
    /// The hard timeout for the call, in seconds.
    pub timeout_seconds: u64,
}

/// The base endpoint serving an ecosystem: the first enabled candidate
/// profile with an endpoint wins; no usable profile is a configuration
/// error, distinct from any transport failure.
pub fn resolve_cdxgen_base_url(languages_cfg: &LanguagesConfig, package_type: PackageType) -> (r:
    Result<String, RegisterError>)
    ensures
        r is Ok <==> spec_resolve_from(
            languages_cfg.entries@,
            spec_cdxgen_profiles(package_type),
            0,
        ) is Some,
        r matches Ok(u) ==> spec_resolve_from(
            languages_cfg.entries@,
            spec_cdxgen_profiles(package_type),
            0,
        ) == Some(u@),
        r is Err ==> (r matches Err(e) && e is Config),
{
    let candidates = package_type.cdxgen_profiles();
    match languages_cfg.resolve_base_url(&candidates) {
        Some(url) => Ok(url),
        None => Err(
            RegisterError::Config(
                String::from_str("cdxgen url not configured for the detected ecosystem's profiles"),
            ),
        ),
    }
}

/// The request issued against a base endpoint for a repository's SBOM: a
/// GET on `<base>/sbom` (trailing slashes of the base trimmed), asking for
/// the multi-project document, with the generator type tag appended when the
/// ecosystem maps to one.
pub open spec fn sbom_request_matches(
    r: SbomRequest,
    base: Seq<char>,
    repo: Seq<char>,
    t: PackageType,
    timeout: u64,
) -> bool {
    &&& r.endpoint@ == without_trailing_slashes(base) + "/sbom"@
    &&& r.timeout_seconds == timeout
    &&& r.query@.len() == (if spec_cdxgen_type(t) is Some {
        3int
    } else {
        2int
    })
    &&& r.query@[0].0@ == "url"@ && r.query@[0].1@ == repo
    &&& r.query@[1].0@ == "multiProject"@ && r.query@[1].1@ == "true"@
    &&& (spec_cdxgen_type(t) matches Some(tag) ==> r.query@[2].0@ == "type"@ && r.query@[2].1@
        == tag)
}

/// Builds the request issued against a resolved base endpoint: a GET on
/// `<base>/sbom` (trailing slashes of the base trimmed) asking for the
/// repository's multi-project SBOM, with the generator type tag appended
/// when the ecosystem maps to one.
pub fn build_sbom_request(
    base_url: &str,
    repo_url: &str,
    package_type: PackageType,
    timeout_seconds: u64,
) -> (r: SbomRequest)
    ensures
        sbom_request_matches(r, base_url@, repo_url@, package_type, timeout_seconds),
{
    let trimmed = trim_trailing_slashes(base_url);
    let mut endpoint = String::from_str(trimmed);
    endpoint.append("/sbom");
    let mut query: Vec<(String, String)> = Vec::new();
    query.push((String::from_str("url"), String::from_str(repo_url)));
    query.push((String::from_str("multiProject"), String::from_str("true")));
    match package_type.cdxgen_type() {
        Some(tag) => {
            query.push((String::from_str("type"), String::from_str(tag)));
        },
        None => {},
    }
    SbomRequest { endpoint, query, timeout_seconds }
}

} // verus!
