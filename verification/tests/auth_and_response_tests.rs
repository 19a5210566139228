use depscan::auth::{build_claims, extract_bearer, principal_of_sub, Principal};
use depscan::graph::{GraphParam, graph_sync_statements};
use depscan::pipeline::NewProject;
use depscan::response::{default_page, default_per_page, ApiResponse, Page, PaginationParams};
use depscan::sbom::SbomComponent;

#[test]
fn subject_round_trips_a_principal() {
    let p = Principal { id: "42".to_string(), name: "ada".to_string() };
    let sub = p.sub();
    assert_eq!(sub, "42:ada");
    let back = principal_of_sub(&sub).unwrap();
    assert_eq!(back.id, "42");
    assert_eq!(back.name, "ada");
}

#[test]
fn subject_without_a_colon_carries_no_principal() {
    assert!(principal_of_sub("nobody").is_none());
}

#[test]
fn bearer_extraction_rules() {
    assert_eq!(extract_bearer(None).unwrap_err(), "Authorization header missing");
    assert_eq!(
        extract_bearer(Some("Token abc")).unwrap_err(),
        "Malformed Authorization header"
    );
    assert_eq!(extract_bearer(Some("Bearer abc.def")).unwrap(), "abc.def");
}

#[test]
fn claims_expire_after_the_configured_lifetime() {
    let p = Principal { id: "1".to_string(), name: "bo".to_string() };
    let c = build_claims(&p, "jti-1".to_string(), "aud", "iss", 1000, 3600);
    assert_eq!(c.sub, "1:bo");
    assert_eq!(c.aud, "aud");
    assert_eq!(c.iss, "iss");
    assert_eq!(c.iat, 1000);
    assert_eq!(c.exp, 4600);
}

#[test]
fn response_envelopes() {
    let ok: ApiResponse<u32> = ApiResponse::ok("done", Some(5));
    assert_eq!(ok.code, 200);
    assert_eq!(ok.message, "done");
    assert_eq!(ok.data, Some(5));
    let err: ApiResponse<u32> = ApiResponse::err(404, "missing");
    assert_eq!(err.code, 404);
    assert!(err.data.is_none());
    let raw: ApiResponse<u32> = ApiResponse::new(202, "queued".to_string(), None);
    assert_eq!(raw.code, 202);
}

#[test]
fn pagination_bounds() {
    assert_eq!(default_page(), 1);
    assert_eq!(default_per_page(), 10);
    assert!(PaginationParams::default().is_valid());
    assert!(!PaginationParams { page: 0, per_page: 10 }.is_valid());
    assert!(!PaginationParams { page: 1, per_page: 0 }.is_valid());
    assert!(!PaginationParams { page: 1, per_page: 101 }.is_valid());
    assert!(PaginationParams { page: 3, per_page: 100 }.is_valid());
}

#[test]
fn pages_echo_their_request() {
    let p: Page<u8> = Page::empty(25);
    assert_eq!(p.total, 0);
    assert_eq!(p.page, 1);
    assert_eq!(p.per_page, 25);
    assert!(p.items.is_empty());
    let q = Page::from_pagination(PaginationParams { page: 2, per_page: 50 }, 99, vec![1u8, 2]);
    assert_eq!(q.total, 99);
    assert_eq!(q.page, 2);
    assert_eq!(q.per_page, 50);
    assert_eq!(q.items, vec![1u8, 2]);
    let r = Page::new(7, 1, 10, vec!["x"]);
    assert_eq!(r.total, 7);
}

#[test]
fn graph_statements_mirror_project_package_and_edge() {
    let payload = NewProject {
        name: "demo".to_string(),
        description: None,
        repo_url: "https://example.com/demo.git".to_string(),
        store_sbom: None,
        store_source: None,
    };
    let components = vec![
        SbomComponent {
            bom_ref: Some("ref-1".to_string()),
            purl: Some("pkg:npm/left-pad@1.3.0".to_string()),
            version: Some("1.3.0".to_string()),
            scope: Some("runtime".to_string()),
        },
        SbomComponent { bom_ref: None, purl: None, version: None, scope: None },
        SbomComponent {
            bom_ref: None,
            purl: Some("this is no purl".to_string()),
            version: None,
            scope: None,
        },
    ];
    let pm = Some("npm".to_string());
    let stmts = graph_sync_statements(7, 9, &payload, &pm, &components);
    // one project merge; one package merge and one edge merge for the single
    // component whose PURL parses
    assert_eq!(stmts.len(), 3);
    assert!(stmts[0].query.starts_with("MERGE (p:Project"));
    match &stmts[0].params[0].1 {
        GraphParam::Int(v) => assert_eq!(*v, 7),
        other => panic!("expected the project id, got {:?}", other),
    }
    assert!(stmts[1].query.starts_with("MERGE (pkg:Package"));
    match &stmts[1].params[1].1 {
        GraphParam::Text(t) => assert_eq!(t, "left-pad"),
        other => panic!("expected the package name, got {:?}", other),
    }
    assert!(stmts[2].query.contains("DEPENDS_ON"));
    match &stmts[2].params[1].1 {
        GraphParam::Int(v) => assert_eq!(*v, 9),
        other => panic!("expected the scan id, got {:?}", other),
    }
    match &stmts[2].params[6].1 {
        GraphParam::Text(t) => assert_eq!(t, "ref-1"),
        other => panic!("expected the bom-ref, got {:?}", other),
    }
}
