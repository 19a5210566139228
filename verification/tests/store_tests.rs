use depscan::errors::RegisterError;
use depscan::pipeline::NewProject;
use depscan::sbom::SbomComponent;
use depscan::store::Store;

fn payload(name: &str) -> NewProject {
    NewProject {
        name: name.to_string(),
        description: Some("a demo".to_string()),
        repo_url: "https://example.com/demo.git".to_string(),
        store_sbom: Some(false),
        store_source: Some(false),
    }
}

fn component(purl: Option<&str>, version: Option<&str>, scope: Option<&str>) -> SbomComponent {
    SbomComponent {
        bom_ref: None,
        purl: purl.map(|s| s.to_string()),
        version: version.map(|s| s.to_string()),
        scope: scope.map(|s| s.to_string()),
    }
}

#[test]
fn registering_the_same_name_twice_fails_and_writes_nothing() {
    let mut store = Store::new();
    let pm = Some("go".to_string());
    let sbom = Some("/tmp/check-deps-1/bom.json".to_string());
    let first = store
        .persist_project_and_scan(&payload("demo"), &pm, &sbom, &None, 1000)
        .unwrap();
    assert_eq!(first.project_id, 1);
    assert_eq!(first.scan_id, 1);

    let second = store.persist_project_and_scan(&payload("demo"), &pm, &sbom, &None, 2000);
    match second {
        Err(RegisterError::Biz(m)) => assert_eq!(m, "project name already exists"),
        other => panic!("expected the business-rule error, got {:?}", other),
    }
    assert_eq!(store.projects.len(), 1);
    assert_eq!(store.scans.len(), 1);
    assert_eq!(store.packages.len(), 0);
    assert_eq!(store.deps.len(), 0);
}

#[test]
fn one_dependency_row_per_component_with_purl() {
    let mut store = Store::new();
    let pm = Some("npm".to_string());
    let resp = store
        .persist_project_and_scan(&payload("demo"), &pm, &None, &None, 1000)
        .unwrap();
    let components = vec![
        component(Some("pkg:npm/a@1.0.0"), Some("1.0.0"), None),
        component(None, Some("2.0.0"), None),
        component(Some("pkg:npm/b@2.0.0"), Some("2.0.0"), Some("runtime")),
        component(None, None, None),
    ];
    store
        .insert_direct_dependencies(resp.project_id, resp.scan_id, &pm, &components, 1000)
        .unwrap();
    assert_eq!(store.deps.len(), 2);
    assert_eq!(store.packages.len(), 2);
    for dep in &store.deps {
        assert_eq!(dep.scan_id, resp.scan_id);
        assert_eq!(dep.project_id, resp.project_id);
        assert_eq!(dep.manager.as_deref(), Some("npm"));
        assert!(!dep.is_optional);
    }
}

#[test]
fn same_purl_from_two_registrations_converges_on_one_package_row() {
    let mut store = Store::new();
    let pm = Some("npm".to_string());
    let r1 = store
        .persist_project_and_scan(&payload("one"), &pm, &None, &None, 1000)
        .unwrap();
    let r2 = store
        .persist_project_and_scan(&payload("two"), &pm, &None, &None, 1000)
        .unwrap();
    let shared = vec![component(Some("pkg:npm/left-pad@1.3.0"), Some("1.3.0"), None)];
    store
        .insert_direct_dependencies(r1.project_id, r1.scan_id, &pm, &shared, 1000)
        .unwrap();
    store
        .insert_direct_dependencies(r2.project_id, r2.scan_id, &pm, &shared, 1000)
        .unwrap();
    assert_eq!(store.packages.len(), 1);
    assert_eq!(store.deps.len(), 2);
    let the_id = store.packages[0].id;
    assert_eq!(store.deps[0].package_id, the_id);
    assert_eq!(store.deps[1].package_id, the_id);
}

#[test]
fn ensure_package_answers_the_stored_row_on_reuse() {
    let mut store = Store::new();
    let id1 = store.ensure_package("pkg:npm/left-pad@1.3.0", 500).unwrap();
    let id2 = store.ensure_package("pkg:npm/left-pad@1.3.0", 900).unwrap();
    assert_eq!(id1, id2);
    assert_eq!(store.packages.len(), 1);
}

#[test]
fn invalid_purl_is_a_business_error_and_writes_nothing() {
    let mut store = Store::new();
    match store.ensure_package("not a purl", 500) {
        Err(RegisterError::Biz(m)) => assert_eq!(m, "invalid purl"),
        other => panic!("expected the business-rule error, got {:?}", other),
    }
    assert_eq!(store.packages.len(), 0);
}

#[test]
fn npm_component_is_stored_with_parsed_purl_fields() {
    let mut store = Store::new();
    let pm = Some("npm".to_string());
    let resp = store
        .persist_project_and_scan(&payload("demo"), &pm, &None, &None, 1000)
        .unwrap();
    let components = vec![component(
        Some("pkg:npm/left-pad@1.3.0"),
        Some("1.3.0"),
        Some("runtime"),
    )];
    store
        .insert_direct_dependencies(resp.project_id, resp.scan_id, &pm, &components, 1000)
        .unwrap();
    assert_eq!(store.packages.len(), 1);
    let pkg = &store.packages[0];
    assert_eq!(pkg.purl, "pkg:npm/left-pad@1.3.0");
    assert_eq!(pkg.purl_type, "npm");
    assert_eq!(pkg.namespace, None);
    assert_eq!(pkg.name, "left-pad");
    assert_eq!(store.deps.len(), 1);
    let dep = &store.deps[0];
    assert_eq!(dep.resolved_version.as_deref(), Some("1.3.0"));
    assert_eq!(dep.scope.as_deref(), Some("runtime"));
    assert_eq!(dep.package_id, pkg.id);
}

#[test]
fn scoped_npm_purl_keeps_its_namespace() {
    let mut store = Store::new();
    let id = store.ensure_package("pkg:npm/%40babel/core@7.0.0", 500).unwrap();
    let pkg = store.packages.iter().find(|p| p.id == id).unwrap();
    assert_eq!(pkg.purl_type, "npm");
    assert_eq!(pkg.namespace.as_deref(), Some("@babel"));
    assert_eq!(pkg.name, "core");
}

#[test]
fn project_and_scan_share_one_timestamp() {
    let mut store = Store::new();
    let pm = Some("go".to_string());
    store
        .persist_project_and_scan(&payload("demo"), &pm, &None, &None, 4242)
        .unwrap();
    let project = &store.projects[0];
    let scan = &store.scans[0];
    assert_eq!(project.created_at, 4242);
    assert_eq!(project.updated_at, 4242);
    assert_eq!(project.last_scanned_at, Some(4242));
    assert_eq!(scan.created_at, 4242);
    assert_eq!(scan.started_at, Some(4242));
    assert_eq!(scan.completed_at, Some(4242));
    assert_eq!(scan.project_id, project.id);
    assert_eq!(scan.scanner.as_deref(), Some("cdxgen"));
    assert_eq!(scan.status.as_deref(), Some("success"));
    assert_eq!(project.sbom_format.as_deref(), Some("cyclonedx-json"));
}
