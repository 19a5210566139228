use depscan::pipeline::{resolve_artifact_paths, s3_locator, should_cleanup_workspace, NewProject};
use depscan::strutil::{
    dash_spaces, path_is_inside, str_eq, str_starts_with, to_lower, trim_edge_slashes,
    trim_trailing_slashes,
};

fn payload(store_source: bool) -> NewProject {
    NewProject {
        name: "demo".to_string(),
        description: None,
        repo_url: "https://example.com/demo.git".to_string(),
        store_sbom: Some(false),
        store_source: Some(store_source),
    }
}

#[test]
fn string_helpers() {
    assert!(str_eq("abc", "abc"));
    assert!(!str_eq("abc", "abd"));
    assert!(str_starts_with("Bearer token", "Bearer "));
    assert!(!str_starts_with("Be", "Bearer "));
    assert_eq!(to_lower("HS384x"), "hs384x");
    assert_eq!(dash_spaces("my demo app"), "my-demo-app");
    assert_eq!(trim_trailing_slashes("http://a//"), "http://a");
    assert_eq!(trim_edge_slashes("/scans/"), "scans");
    assert_eq!(trim_edge_slashes("///"), "");
}

#[test]
fn path_containment_is_component_wise() {
    assert!(path_is_inside("/tmp/x/bom.json", "/tmp/x"));
    assert!(path_is_inside("/tmp/x", "/tmp/x"));
    assert!(!path_is_inside("/tmp/xy", "/tmp/x"));
    assert!(!path_is_inside("s3://bucket/key", "/tmp/x"));
}

#[test]
fn locators_are_scheme_qualified() {
    assert_eq!(s3_locator("bucket", "a/b/bom.json"), "s3://bucket/a/b/bom.json");
}

#[test]
fn resolution_prefers_locators_and_falls_back_to_local_paths() {
    // nothing uploaded: the local SBOM copy is stored, the source only when
    // an archive was requested and built
    let (sbom, source) = resolve_artifact_paths(
        &payload(true),
        &None,
        &None,
        "/tmp/w/bom.json",
        &Some("/tmp/w/source.tar.gz".to_string()),
    );
    assert_eq!(sbom.as_deref(), Some("/tmp/w/bom.json"));
    assert_eq!(source.as_deref(), Some("/tmp/w/source.tar.gz"));

    let (sbom2, source2) = resolve_artifact_paths(
        &payload(false),
        &Some("s3://b/k/bom.json".to_string()),
        &Some("s3://b/k/source.tar.gz".to_string()),
        "/tmp/w/bom.json",
        &None,
    );
    assert_eq!(sbom2.as_deref(), Some("s3://b/k/bom.json"));
    assert_eq!(source2.as_deref(), Some("s3://b/k/source.tar.gz"));

    // source storage not requested: no source path is stored
    let (_, source3) = resolve_artifact_paths(&payload(false), &None, &None, "/tmp/w/bom.json", &None);
    assert_eq!(source3, None);
}

#[test]
fn workspace_is_kept_while_an_artifact_lives_inside_it() {
    assert!(!should_cleanup_workspace(
        "/tmp/w",
        &Some("/tmp/w/bom.json".to_string()),
        &None,
    ));
    assert!(!should_cleanup_workspace(
        "/tmp/w",
        &Some("s3://b/bom.json".to_string()),
        &Some("/tmp/w/source.tar.gz".to_string()),
    ));
    assert!(should_cleanup_workspace(
        "/tmp/w",
        &Some("s3://b/bom.json".to_string()),
        &Some("s3://b/source.tar.gz".to_string()),
    ));
}
