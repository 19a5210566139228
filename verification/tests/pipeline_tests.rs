use depscan::config::languages::{LanguageServiceConfig, LanguagesConfig};
use depscan::config::s3::S3Config;
use depscan::errors::RegisterError;
use depscan::pipeline::{Action, Event, NewProject, Outcome, Registration};

fn languages_with_full(url: &str) -> LanguagesConfig {
    LanguagesConfig {
        timeout_seconds: None,
        entries: vec![(
            "full".to_string(),
            LanguageServiceConfig { enabled: Some(true), cdxgen_url: Some(url.to_string()) },
        )],
    }
}

fn s3_disabled() -> S3Config {
    S3Config {
        enabled: None,
        bucket: None,
        region: None,
        access_key_id: None,
        secret_access_key: None,
        endpoint: None,
        prefix: None,
    }
}

fn s3_enabled(bucket: &str, prefix: Option<&str>) -> S3Config {
    S3Config {
        enabled: Some(true),
        bucket: Some(bucket.to_string()),
        region: Some("us-east-1".to_string()),
        access_key_id: None,
        secret_access_key: None,
        endpoint: None,
        prefix: prefix.map(|p| p.to_string()),
    }
}

fn demo_payload(store_sbom: bool, store_source: bool) -> NewProject {
    NewProject {
        name: "demo".to_string(),
        description: None,
        repo_url: "https://example.com/demo.git".to_string(),
        store_sbom: Some(store_sbom),
        store_source: Some(store_source),
    }
}

fn next(o: Outcome) -> Action {
    match o {
        Outcome::Next(a) => a,
        other => panic!("expected another action, got {:?}", other),
    }
}

const ONE_NPM_COMPONENT: &str =
    r#"{"components":[{"purl":"pkg:npm/left-pad@1.3.0","version":"1.3.0","scope":"runtime"}]}"#;

#[test]
fn go_registration_without_storage_ends_with_local_sbom_path() {
    let (mut reg, first) = Registration::new(
        demo_payload(false, false),
        languages_with_full("http://cdxgen:8080"),
        s3_disabled(),
        false,
        "/tmp",
        "w1",
        "a1".to_string(),
        1000,
    );
    let tmp = match first {
        Action::CreateDir { path } => path,
        other => panic!("expected the workspace creation, got {:?}", other),
    };
    assert_eq!(tmp, "/tmp/check-deps-w1");

    let a = next(reg.on_event(Event::DirCreated));
    match a {
        Action::CloneRepo { url, dest } => {
            assert_eq!(url, "https://example.com/demo.git");
            assert_eq!(dest, tmp);
        },
        other => panic!("expected the clone, got {:?}", other),
    }

    let a = next(reg.on_event(Event::CloneOk));
    assert!(matches!(a, Action::ListTree { .. }));

    let a = next(reg.on_event(Event::TreeListed { names: vec!["go.mod".to_string()] }));
    match a {
        Action::HttpGetSbom { request } => {
            assert_eq!(request.endpoint, "http://cdxgen:8080/sbom");
            assert!(request.query.contains(&("type".to_string(), "go".to_string())));
            assert!(request.query.contains(&("multiProject".to_string(), "true".to_string())));
            assert_eq!(request.timeout_seconds, 120);
        },
        other => panic!("expected the SBOM request, got {:?}", other),
    }

    let a = next(reg.on_event(Event::SbomResponse { body: ONE_NPM_COMPONENT.to_string() }));
    match a {
        Action::WriteFile { path, .. } => assert_eq!(path, format!("{}/bom.json", tmp)),
        other => panic!("expected the local SBOM write, got {:?}", other),
    }

    // storage is disabled and no source archive was asked for: persistence
    // follows at once
    let a = next(reg.on_event(Event::FileWritten));
    assert!(matches!(a, Action::FindProjectByName { .. }));

    let a = next(reg.on_event(Event::NameFree));
    match a {
        Action::InsertProject { record } => {
            assert_eq!(record.name, "demo");
            assert_eq!(record.package_manager.as_deref(), Some("go"));
            assert_eq!(record.sbom_path.as_deref(), Some("/tmp/check-deps-w1/bom.json"));
            assert_eq!(record.source_path, None);
            assert_eq!(record.created_at, 1000);
        },
        other => panic!("expected the project insert, got {:?}", other),
    }

    let a = next(reg.on_event(Event::ProjectInserted { id: 7 }));
    match a {
        Action::InsertScan { record } => {
            assert_eq!(record.project_id, 7);
            assert_eq!(record.scanner.as_deref(), Some("cdxgen"));
        },
        other => panic!("expected the scan insert, got {:?}", other),
    }

    let a = next(reg.on_event(Event::ScanInserted { id: 9 }));
    match a {
        Action::FindPackage { purl } => assert_eq!(purl, "pkg:npm/left-pad@1.3.0"),
        other => panic!("expected the package lookup, got {:?}", other),
    }

    let a = next(reg.on_event(Event::PackageMissing));
    match a {
        Action::InsertPackage { record } => {
            assert_eq!(record.purl_type, "npm");
            assert_eq!(record.name, "left-pad");
        },
        other => panic!("expected the package insert, got {:?}", other),
    }

    let a = next(reg.on_event(Event::PackageInserted { id: 3 }));
    match a {
        Action::InsertDependency { record } => {
            assert_eq!(record.scan_id, 9);
            assert_eq!(record.project_id, 7);
            assert_eq!(record.package_id, 3);
            assert_eq!(record.resolved_version.as_deref(), Some("1.3.0"));
            assert_eq!(record.scope.as_deref(), Some("runtime"));
        },
        other => panic!("expected the dependency insert, got {:?}", other),
    }

    // no graph store; the local SBOM path keeps the workspace alive
    match reg.on_event(Event::DependencyInserted) {
        Outcome::Done(resp) => {
            assert_eq!(resp.project_id, 7);
            assert_eq!(resp.scan_id, 9);
            let sbom_path = resp.sbom_path.expect("a local SBOM path");
            assert!(sbom_path.starts_with("/tmp/check-deps-w1"));
            assert!(sbom_path.ends_with("bom.json"));
            assert_eq!(resp.source_path, None);
        },
        other => panic!("expected success, got {:?}", other),
    }
}

#[test]
fn graph_failure_is_swallowed_and_registration_succeeds() {
    let (mut reg, _) = Registration::new(
        demo_payload(false, false),
        languages_with_full("http://cdxgen:8080"),
        s3_disabled(),
        true,
        "/tmp",
        "w2",
        "a2".to_string(),
        1000,
    );
    reg.on_event(Event::DirCreated);
    reg.on_event(Event::CloneOk);
    reg.on_event(Event::TreeListed { names: vec!["go.mod".to_string()] });
    reg.on_event(Event::SbomResponse { body: ONE_NPM_COMPONENT.to_string() });
    reg.on_event(Event::FileWritten);
    reg.on_event(Event::NameFree);
    reg.on_event(Event::ProjectInserted { id: 1 });
    reg.on_event(Event::ScanInserted { id: 1 });
    reg.on_event(Event::PackageMissing);
    reg.on_event(Event::PackageInserted { id: 1 });
    let a = next(reg.on_event(Event::DependencyInserted));
    match a {
        Action::SyncGraph { statements } => {
            // the project merge plus one package merge and one edge merge
            assert_eq!(statements.len(), 3);
        },
        other => panic!("expected the graph sync, got {:?}", other),
    }
    match reg.on_event(Event::GraphFailed { message: "graph store down".to_string() }) {
        Outcome::Done(resp) => {
            assert_eq!(resp.project_id, 1);
            assert_eq!(resp.scan_id, 1);
        },
        other => panic!("graph failure must not fail the registration, got {:?}", other),
    }
    assert_eq!(reg.graph_failure.as_deref(), Some("graph store down"));
}

#[test]
fn full_storage_uploads_both_artifacts_and_removes_the_workspace() {
    let (mut reg, _) = Registration::new(
        demo_payload(true, true),
        languages_with_full("http://cdxgen:8080"),
        s3_enabled("artifacts", Some("/scans/")),
        false,
        "/tmp",
        "w3",
        "a3".to_string(),
        1000,
    );
    reg.on_event(Event::DirCreated);
    reg.on_event(Event::CloneOk);
    reg.on_event(Event::TreeListed { names: vec!["go.mod".to_string()] });
    reg.on_event(Event::SbomResponse { body: ONE_NPM_COMPONENT.to_string() });

    let a = next(reg.on_event(Event::FileWritten));
    match a {
        Action::ArchiveDir { src, dest } => {
            assert_eq!(src, "/tmp/check-deps-w3");
            assert_eq!(dest, "/tmp/check-deps-w3/source.tar.gz");
        },
        other => panic!("expected the archive step, got {:?}", other),
    }

    let a = next(reg.on_event(Event::ArchiveOk));
    match a {
        Action::UploadSbomBytes { bucket, key, .. } => {
            assert_eq!(bucket, "artifacts");
            assert_eq!(key, "scans/demo-a3/bom.json");
        },
        other => panic!("expected the SBOM upload, got {:?}", other),
    }

    let a = next(reg.on_event(Event::UploadOk));
    match a {
        Action::UploadSourceFile { bucket, key, path } => {
            assert_eq!(bucket, "artifacts");
            assert_eq!(key, "scans/demo-a3/source.tar.gz");
            assert_eq!(path, "/tmp/check-deps-w3/source.tar.gz");
        },
        other => panic!("expected the source upload, got {:?}", other),
    }

    let a = next(reg.on_event(Event::UploadOk));
    assert!(matches!(a, Action::FindProjectByName { .. }));

    reg.on_event(Event::NameFree);
    reg.on_event(Event::ProjectInserted { id: 1 });
    reg.on_event(Event::ScanInserted { id: 1 });
    reg.on_event(Event::PackageMissing);
    reg.on_event(Event::PackageInserted { id: 1 });

    // both artifacts were externalized: the workspace is removed
    let a = next(reg.on_event(Event::DependencyInserted));
    match a {
        Action::RemoveDir { path } => assert_eq!(path, "/tmp/check-deps-w3"),
        other => panic!("expected the workspace removal, got {:?}", other),
    }
    match reg.on_event(Event::RemoveOk) {
        Outcome::Done(resp) => {
            assert_eq!(resp.sbom_path.as_deref(), Some("s3://artifacts/scans/demo-a3/bom.json"));
            assert_eq!(
                resp.source_path.as_deref(),
                Some("s3://artifacts/scans/demo-a3/source.tar.gz")
            );
        },
        other => panic!("expected success, got {:?}", other),
    }
}

#[test]
fn name_sanitizing_dashes_spaces_in_object_keys() {
    let mut payload = demo_payload(true, false);
    payload.name = "my demo app".to_string();
    let (mut reg, _) = Registration::new(
        payload,
        languages_with_full("http://cdxgen:8080"),
        s3_enabled("artifacts", None),
        false,
        "/tmp",
        "w8",
        "a8".to_string(),
        1000,
    );
    reg.on_event(Event::DirCreated);
    reg.on_event(Event::CloneOk);
    reg.on_event(Event::TreeListed { names: vec!["go.mod".to_string()] });
    reg.on_event(Event::SbomResponse { body: ONE_NPM_COMPONENT.to_string() });
    let a = next(reg.on_event(Event::FileWritten));
    match a {
        Action::UploadSbomBytes { key, .. } => assert_eq!(key, "my-demo-app-a8/bom.json"),
        other => panic!("expected the SBOM upload, got {:?}", other),
    }
}

#[test]
fn duplicate_name_pre_check_aborts_with_the_business_error() {
    let (mut reg, _) = Registration::new(
        demo_payload(false, false),
        languages_with_full("http://cdxgen:8080"),
        s3_disabled(),
        false,
        "/tmp",
        "w4",
        "a4".to_string(),
        1000,
    );
    reg.on_event(Event::DirCreated);
    reg.on_event(Event::CloneOk);
    reg.on_event(Event::TreeListed { names: vec!["go.mod".to_string()] });
    reg.on_event(Event::SbomResponse { body: ONE_NPM_COMPONENT.to_string() });
    reg.on_event(Event::FileWritten);
    match reg.on_event(Event::NameTaken) {
        Outcome::Failed(RegisterError::Biz(m)) => assert_eq!(m, "project name already exists"),
        other => panic!("expected the business-rule error, got {:?}", other),
    }
}

#[test]
fn losing_the_name_race_maps_to_the_same_business_error() {
    let (mut reg, _) = Registration::new(
        demo_payload(false, false),
        languages_with_full("http://cdxgen:8080"),
        s3_disabled(),
        false,
        "/tmp",
        "w5",
        "a5".to_string(),
        1000,
    );
    reg.on_event(Event::DirCreated);
    reg.on_event(Event::CloneOk);
    reg.on_event(Event::TreeListed { names: vec!["go.mod".to_string()] });
    reg.on_event(Event::SbomResponse { body: ONE_NPM_COMPONENT.to_string() });
    reg.on_event(Event::FileWritten);
    reg.on_event(Event::NameFree);
    match reg.on_event(Event::ProjectConflict) {
        Outcome::Failed(RegisterError::Biz(m)) => assert_eq!(m, "project name already exists"),
        other => panic!("expected the business-rule error, got {:?}", other),
    }
}

#[test]
fn losing_the_package_race_rereads_the_winner() {
    let (mut reg, _) = Registration::new(
        demo_payload(false, false),
        languages_with_full("http://cdxgen:8080"),
        s3_disabled(),
        false,
        "/tmp",
        "w6",
        "a6".to_string(),
        1000,
    );
    reg.on_event(Event::DirCreated);
    reg.on_event(Event::CloneOk);
    reg.on_event(Event::TreeListed { names: vec!["go.mod".to_string()] });
    reg.on_event(Event::SbomResponse { body: ONE_NPM_COMPONENT.to_string() });
    reg.on_event(Event::FileWritten);
    reg.on_event(Event::NameFree);
    reg.on_event(Event::ProjectInserted { id: 1 });
    reg.on_event(Event::ScanInserted { id: 1 });
    reg.on_event(Event::PackageMissing);
    // the insert lost a race: the machine re-reads and converges on the winner
    let a = next(reg.on_event(Event::PackageConflict));
    match a {
        Action::FindPackage { purl } => assert_eq!(purl, "pkg:npm/left-pad@1.3.0"),
        other => panic!("expected the re-read, got {:?}", other),
    }
    let a = next(reg.on_event(Event::PackageFound { id: 42 }));
    match a {
        Action::InsertDependency { record } => assert_eq!(record.package_id, 42),
        other => panic!("expected the dependency insert, got {:?}", other),
    }
}

#[test]
fn enabled_storage_without_bucket_is_a_config_error() {
    let mut cfg = s3_enabled("artifacts", None);
    cfg.bucket = Some("".to_string());
    let (mut reg, _) = Registration::new(
        demo_payload(true, false),
        languages_with_full("http://cdxgen:8080"),
        cfg,
        false,
        "/tmp",
        "w7",
        "a7".to_string(),
        1000,
    );
    reg.on_event(Event::DirCreated);
    reg.on_event(Event::CloneOk);
    reg.on_event(Event::TreeListed { names: vec!["go.mod".to_string()] });
    reg.on_event(Event::SbomResponse { body: ONE_NPM_COMPONENT.to_string() });
    match reg.on_event(Event::FileWritten) {
        Outcome::Failed(RegisterError::Config(_)) => {},
        other => panic!("expected the configuration error, got {:?}", other),
    }
}

#[test]
fn transport_and_step_failures_abort_with_their_kind() {
    let (mut reg, _) = Registration::new(
        demo_payload(false, false),
        languages_with_full("http://cdxgen:8080"),
        s3_disabled(),
        false,
        "/tmp",
        "w9",
        "a9".to_string(),
        1000,
    );
    reg.on_event(Event::DirCreated);
    match reg.on_event(Event::CloneFailed { message: "no such host".to_string() }) {
        Outcome::Failed(RegisterError::CloneFailed(m)) => assert_eq!(m, "no such host"),
        other => panic!("expected the clone error, got {:?}", other),
    }

    let (mut reg2, _) = Registration::new(
        demo_payload(false, false),
        languages_with_full("http://cdxgen:8080"),
        s3_disabled(),
        false,
        "/tmp",
        "w10",
        "a10".to_string(),
        1000,
    );
    reg2.on_event(Event::DirCreated);
    reg2.on_event(Event::CloneOk);
    reg2.on_event(Event::TreeListed { names: vec!["go.mod".to_string()] });
    match reg2.on_event(Event::SbomFailed { message: "502".to_string() }) {
        Outcome::Failed(RegisterError::SbomTransport(m)) => assert_eq!(m, "502"),
        other => panic!("expected the transport error, got {:?}", other),
    }
}

#[test]
fn unconfigured_ecosystem_fails_before_any_request() {
    let (mut reg, _) = Registration::new(
        demo_payload(false, false),
        LanguagesConfig { timeout_seconds: None, entries: vec![] },
        s3_disabled(),
        false,
        "/tmp",
        "w11",
        "a11".to_string(),
        1000,
    );
    reg.on_event(Event::DirCreated);
    reg.on_event(Event::CloneOk);
    match reg.on_event(Event::TreeListed { names: vec!["go.mod".to_string()] }) {
        Outcome::Failed(RegisterError::Config(_)) => {},
        other => panic!("expected the configuration error, got {:?}", other),
    }
}

#[test]
fn malformed_sbom_fails_after_the_local_write() {
    let (mut reg, _) = Registration::new(
        demo_payload(false, false),
        languages_with_full("http://cdxgen:8080"),
        s3_disabled(),
        false,
        "/tmp",
        "w12",
        "a12".to_string(),
        1000,
    );
    reg.on_event(Event::DirCreated);
    reg.on_event(Event::CloneOk);
    reg.on_event(Event::TreeListed { names: vec!["go.mod".to_string()] });
    reg.on_event(Event::SbomResponse { body: "{broken".to_string() });
    match reg.on_event(Event::FileWritten) {
        Outcome::Failed(RegisterError::SbomParse) => {},
        other => panic!("expected the parse error, got {:?}", other),
    }
}

#[test]
fn cleanup_failure_still_reports_success() {
    let (mut reg, _) = Registration::new(
        demo_payload(true, true),
        languages_with_full("http://cdxgen:8080"),
        s3_enabled("artifacts", None),
        false,
        "/tmp",
        "w13",
        "a13".to_string(),
        1000,
    );
    reg.on_event(Event::DirCreated);
    reg.on_event(Event::CloneOk);
    reg.on_event(Event::TreeListed { names: vec!["go.mod".to_string()] });
    reg.on_event(Event::SbomResponse { body: ONE_NPM_COMPONENT.to_string() });
    reg.on_event(Event::FileWritten);
    reg.on_event(Event::ArchiveOk);
    reg.on_event(Event::UploadOk);
    reg.on_event(Event::UploadOk);
    reg.on_event(Event::NameFree);
    reg.on_event(Event::ProjectInserted { id: 5 });
    reg.on_event(Event::ScanInserted { id: 6 });
    reg.on_event(Event::PackageMissing);
    reg.on_event(Event::PackageInserted { id: 1 });
    let a = next(reg.on_event(Event::DependencyInserted));
    assert!(matches!(a, Action::RemoveDir { .. }));
    match reg.on_event(Event::RemoveFailed { message: "busy".to_string() }) {
        Outcome::Done(resp) => {
            assert_eq!(resp.project_id, 5);
            assert_eq!(resp.scan_id, 6);
        },
        other => panic!("cleanup failure must not change the outcome, got {:?}", other),
    }
    assert_eq!(reg.remove_failure.as_deref(), Some("busy"));
}

#[test]
fn workspace_archive_upload_and_db_failures_map_to_their_kinds() {
    let (mut reg, _) = Registration::new(
        demo_payload(false, false),
        languages_with_full("http://cdxgen:8080"),
        s3_disabled(),
        false,
        "/tmp",
        "w14",
        "a14".to_string(),
        1000,
    );
    match reg.on_event(Event::DirCreateFailed { message: "disk full".to_string() }) {
        Outcome::Failed(RegisterError::WorkspaceIo(m)) => assert_eq!(m, "disk full"),
        other => panic!("expected the workspace error, got {:?}", other),
    }

    let (mut reg2, _) = Registration::new(
        demo_payload(true, true),
        languages_with_full("http://cdxgen:8080"),
        s3_enabled("artifacts", None),
        false,
        "/tmp",
        "w15",
        "a15".to_string(),
        1000,
    );
    reg2.on_event(Event::DirCreated);
    reg2.on_event(Event::CloneOk);
    reg2.on_event(Event::TreeListed { names: vec!["go.mod".to_string()] });
    reg2.on_event(Event::SbomResponse { body: ONE_NPM_COMPONENT.to_string() });
    reg2.on_event(Event::FileWritten);
    match reg2.on_event(Event::ArchiveFailed { message: "unreadable entry".to_string() }) {
        Outcome::Failed(RegisterError::ArchiveIo(m)) => assert_eq!(m, "unreadable entry"),
        other => panic!("expected the archive error, got {:?}", other),
    }

    let (mut reg3, _) = Registration::new(
        demo_payload(true, false),
        languages_with_full("http://cdxgen:8080"),
        s3_enabled("artifacts", None),
        false,
        "/tmp",
        "w16",
        "a16".to_string(),
        1000,
    );
    reg3.on_event(Event::DirCreated);
    reg3.on_event(Event::CloneOk);
    reg3.on_event(Event::TreeListed { names: vec!["go.mod".to_string()] });
    reg3.on_event(Event::SbomResponse { body: ONE_NPM_COMPONENT.to_string() });
    reg3.on_event(Event::FileWritten);
    match reg3.on_event(Event::UploadFailed { message: "403".to_string() }) {
        Outcome::Failed(RegisterError::Upload(m)) => assert_eq!(m, "403"),
        other => panic!("expected the upload error, got {:?}", other),
    }

    let (mut reg4, _) = Registration::new(
        demo_payload(false, false),
        languages_with_full("http://cdxgen:8080"),
        s3_disabled(),
        false,
        "/tmp",
        "w17",
        "a17".to_string(),
        1000,
    );
    reg4.on_event(Event::DirCreated);
    reg4.on_event(Event::CloneOk);
    reg4.on_event(Event::TreeListed { names: vec!["go.mod".to_string()] });
    reg4.on_event(Event::SbomResponse { body: ONE_NPM_COMPONENT.to_string() });
    reg4.on_event(Event::FileWritten);
    match reg4.on_event(Event::DbFailed { message: "connection reset".to_string() }) {
        Outcome::Failed(RegisterError::Persistence(m)) => assert_eq!(m, "connection reset"),
        other => panic!("expected the persistence error, got {:?}", other),
    }
}

#[test]
fn business_errors_answer_in_band_and_the_rest_server_side() {
    assert_eq!(RegisterError::Biz("taken".to_string()).status_code(), 200);
    assert_eq!(RegisterError::SbomParse.status_code(), 500);
    assert_eq!(RegisterError::Config("x".to_string()).status_code(), 500);
    assert_eq!(RegisterError::Persistence("x".to_string()).status_code(), 500);
}
