//! The graph-store mirror of a registration.
//!
//! After the relational write succeeds, the project node, one package node
//! per component with a valid PURL, and one DEPENDS_ON edge per such
//! component are merged into the graph store, all in one transaction.  This
//! module computes that statement list; the embedding application runs it,
//! and any failure there is logged and swallowed, never surfaced.

use vstd::prelude::*;
use vstd::string::StringExecFns;

use crate::pipeline::NewProject;
use crate::purl::{parse_purl, purl_core_of, PurlCore};
use crate::sbom::SbomComponent;
use crate::strutil::or_empty;

verus! {

/// One parameter handed to a graph statement.
#[derive(Debug, Clone)]
pub enum GraphParam {
    Int(i64),
    Text(String),
}

/// One parameterized statement of the graph transaction.
#[derive(Debug, Clone)]
pub struct GraphStatement {
    /// The statement text, with `$name` placeholders.
    pub query: String,
    /// The named parameters, in order.
    pub params: Vec<(String, GraphParam)>,
}

/// The components among the first `i` that carry a valid PURL, each paired
/// with what its PURL parses to; these and only these are mirrored.
pub open spec fn spec_graph_pairs_upto(cs: Seq<SbomComponent>, i: int) -> Seq<
    (SbomComponent, PurlCore),
>
    decreases i,
{
    if i <= 0 {
        Seq::empty()
    } else {
        spec_graph_pairs_upto(cs, i - 1) + (match cs[i - 1].purl {
            Some(p) => match purl_core_of(p@) {
                Some(c) => seq![(cs[i - 1], c)],
                None => Seq::empty(),
            },
            None => Seq::empty(),
        })
    }
}

/// The components carrying a valid PURL, in order.
pub open spec fn spec_graph_pairs(cs: Seq<SbomComponent>) -> Seq<(SbomComponent, PurlCore)> {
    spec_graph_pairs_upto(cs, cs.len() as int)
}

/// The statement that merges the project node, keyed by its relational id.
pub open spec fn project_stmt_matches(
    s: GraphStatement,
    project_id: i32,
    payload: NewProject,
    pm: Option<String>,
) -> bool {
    &&& s.query@
        == "MERGE (p:Project {id: $project_id}) SET p.name = $name, p.repo_url = $repo_url, p.package_manager = $package_manager, p.updated_at = datetime()"@
    &&& s.params@.len() == 4
    &&& s.params@[0].0@ == "project_id"@
    &&& (s.params@[0].1 matches GraphParam::Int(v) && v == project_id as i64)
    &&& s.params@[1].0@ == "name"@
    &&& (s.params@[1].1 matches GraphParam::Text(t) && t@ == payload.name@)
    &&& s.params@[2].0@ == "repo_url"@
    &&& (s.params@[2].1 matches GraphParam::Text(t) && t@ == payload.repo_url@)
    &&& s.params@[3].0@ == "package_manager"@
    &&& (s.params@[3].1 matches GraphParam::Text(t) && t@ == or_empty(pm))
}

/// The statement that merges one package node, keyed by PURL.
pub open spec fn package_stmt_matches(s: GraphStatement, c: SbomComponent, core: PurlCore) -> bool {
    &&& s.query@
        == "MERGE (pkg:Package {purl: $purl}) SET pkg.name = $name, pkg.type = $type, pkg.namespace = $namespace, pkg.updated_at = datetime()"@
    &&& s.params@.len() == 4
    &&& c.purl is Some
    &&& s.params@[0].0@ == "purl"@
    &&& (s.params@[0].1 matches GraphParam::Text(t) && t@ == c.purl->Some_0@)
    &&& s.params@[1].0@ == "name"@
    &&& (s.params@[1].1 matches GraphParam::Text(t) && t@ == core.name)
    &&& s.params@[2].0@ == "type"@
    &&& (s.params@[2].1 matches GraphParam::Text(t) && t@ == core.ty)
    &&& s.params@[3].0@ == "namespace"@
    &&& (s.params@[3].1 matches GraphParam::Text(t) && t@ == (match core.namespace {
        Some(n) => n,
        None => Seq::empty(),
    }))
}

/// The statement that merges one dependency edge, keyed by scan id and PURL.
pub open spec fn edge_stmt_matches(
    s: GraphStatement,
    c: SbomComponent,
    project_id: i32,
    scan_id: i32,
    pm: Option<String>,
) -> bool {
    &&& s.query@
        == "MATCH (p:Project {id: $project_id}), (pkg:Package {purl: $purl}) MERGE (p)-[r:DEPENDS_ON {scan_id: $scan_id, purl: $purl}]->(pkg) SET r.scope = $scope, r.resolved_version = $resolved_version, r.manager = $manager, r.bom_ref = $bom_ref, r.updated_at = datetime()"@
    &&& s.params@.len() == 7
    &&& c.purl is Some
    &&& s.params@[0].0@ == "project_id"@
    &&& (s.params@[0].1 matches GraphParam::Int(v) && v == project_id as i64)
    &&& s.params@[1].0@ == "scan_id"@
    &&& (s.params@[1].1 matches GraphParam::Int(v) && v == scan_id as i64)
    &&& s.params@[2].0@ == "purl"@
    &&& (s.params@[2].1 matches GraphParam::Text(t) && t@ == c.purl->Some_0@)
    &&& s.params@[3].0@ == "scope"@
    &&& (s.params@[3].1 matches GraphParam::Text(t) && t@ == or_empty(c.scope))
    &&& s.params@[4].0@ == "resolved_version"@
    &&& (s.params@[4].1 matches GraphParam::Text(t) && t@ == or_empty(c.version))
    &&& s.params@[5].0@ == "manager"@
    &&& (s.params@[5].1 matches GraphParam::Text(t) && t@ == or_empty(pm))
    &&& s.params@[6].0@ == "bom_ref"@
    &&& (s.params@[6].1 matches GraphParam::Text(t) && t@ == or_empty(c.bom_ref))
}

/// The whole statement list of one graph transaction: the project merge
/// first, then a package merge and an edge merge per component with a valid
/// PURL, in component order.
pub open spec fn graph_stmts_match(
    stmts: Seq<GraphStatement>,
    project_id: i32,
    scan_id: i32,
    payload: NewProject,
    pm: Option<String>,
    components: Seq<SbomComponent>,
) -> bool {
    &&& stmts.len() == 1 + 2 * spec_graph_pairs(components).len()
    &&& project_stmt_matches(stmts[0], project_id, payload, pm)
    &&& forall|k: int|
        0 <= k < spec_graph_pairs(components).len() ==> package_stmt_matches(
            #[trigger] stmts[1 + 2 * k],
            spec_graph_pairs(components)[k].0,
            spec_graph_pairs(components)[k].1,
        ) && edge_stmt_matches(stmts[2 + 2 * k], spec_graph_pairs(components)[k].0, project_id, scan_id, pm)
}

/// The text of an optional string, the empty string when absent.
fn or_empty_string(o: &Option<String>) -> (r: String)
    ensures
        r@ == or_empty(*o),
{
    match o {
        Some(s) => s.clone(),
        None => String::new(),
    }
}

/// Builds the statement list of one graph transaction: first the project
/// merge, then, for every component whose PURL parses, a package merge
/// followed by an edge merge.  Components without a PURL, or with one the
/// parser rejects, are skipped.
pub fn graph_sync_statements(
    project_id: i32,
    scan_id: i32,
    payload: &NewProject,
    pm: &Option<String>,
    components: &Vec<SbomComponent>,
) -> (r: Vec<GraphStatement>)
    ensures
        graph_stmts_match(r@, project_id, scan_id, *payload, *pm, components@),
{
    let mut stmts: Vec<GraphStatement> = Vec::new();

    let mut project_params: Vec<(String, GraphParam)> = Vec::new();
    project_params.push((String::from_str("project_id"), GraphParam::Int(project_id as i64)));
    project_params.push((String::from_str("name"), GraphParam::Text(payload.name.clone())));
    project_params.push((String::from_str("repo_url"), GraphParam::Text(payload.repo_url.clone())));
    project_params.push((String::from_str("package_manager"), GraphParam::Text(or_empty_string(pm))));
    stmts.push(
        GraphStatement {
            query: String::from_str(
                "MERGE (p:Project {id: $project_id}) SET p.name = $name, p.repo_url = $repo_url, p.package_manager = $package_manager, p.updated_at = datetime()",
            ),
            params: project_params,
        },
    );

    let n = components.len();
    let mut i: usize = 0;
    while i < n
        invariant
            n == components@.len(),
            i <= n,
            stmts@.len() == 1 + 2 * spec_graph_pairs_upto(components@, i as int).len(),
            project_stmt_matches(stmts@[0], project_id, *payload, *pm),
            forall|k: int|
                0 <= k < spec_graph_pairs_upto(components@, i as int).len()
                    ==> package_stmt_matches(
                    #[trigger] stmts@[1 + 2 * k],
                    spec_graph_pairs_upto(components@, i as int)[k].0,
                    spec_graph_pairs_upto(components@, i as int)[k].1,
                ) && edge_stmt_matches(
                    stmts@[2 + 2 * k],
                    spec_graph_pairs_upto(components@, i as int)[k].0,
                    project_id,
                    scan_id,
                    *pm,
                ),
        decreases n - i,
    {
        let ghost prev_pairs = spec_graph_pairs_upto(components@, i as int);
        match &components[i].purl {
            Some(purl) => {
                match parse_purl(purl.as_str()) {
                    Some(parts) => {
                        let mut pkg_params: Vec<(String, GraphParam)> = Vec::new();
                        pkg_params.push((String::from_str("purl"), GraphParam::Text(purl.clone())));
                        pkg_params.push(
                            (String::from_str("name"), GraphParam::Text(parts.name.clone())),
                        );
                        pkg_params.push(
                            (String::from_str("type"), GraphParam::Text(parts.ty.clone())),
                        );
                        pkg_params.push(
                            (
                                String::from_str("namespace"),
                                GraphParam::Text(or_empty_string(&parts.namespace)),
                            ),
                        );
                        stmts.push(
                            GraphStatement {
                                query: String::from_str(
                                    "MERGE (pkg:Package {purl: $purl}) SET pkg.name = $name, pkg.type = $type, pkg.namespace = $namespace, pkg.updated_at = datetime()",
                                ),
                                params: pkg_params,
                            },
                        );

                        let mut edge_params: Vec<(String, GraphParam)> = Vec::new();
                        edge_params.push(
                            (String::from_str("project_id"), GraphParam::Int(project_id as i64)),
                        );
                        edge_params.push(
                            (String::from_str("scan_id"), GraphParam::Int(scan_id as i64)),
                        );
                        edge_params.push(
                            (String::from_str("purl"), GraphParam::Text(purl.clone())),
                        );
                        edge_params.push(
                            (
                                String::from_str("scope"),
                                GraphParam::Text(or_empty_string(&components[i].scope)),
                            ),
                        );
                        edge_params.push(
                            (
                                String::from_str("resolved_version"),
                                GraphParam::Text(or_empty_string(&components[i].version)),
                            ),
                        );
                        edge_params.push(
                            (String::from_str("manager"), GraphParam::Text(or_empty_string(pm))),
                        );
                        edge_params.push(
                            (
                                String::from_str("bom_ref"),
                                GraphParam::Text(or_empty_string(&components[i].bom_ref)),
                            ),
                        );
                        stmts.push(
                            GraphStatement {
                                query: String::from_str(
                                    "MATCH (p:Project {id: $project_id}), (pkg:Package {purl: $purl}) MERGE (p)-[r:DEPENDS_ON {scan_id: $scan_id, purl: $purl}]->(pkg) SET r.scope = $scope, r.resolved_version = $resolved_version, r.manager = $manager, r.bom_ref = $bom_ref, r.updated_at = datetime()",
                                ),
                                params: edge_params,
                            },
                        );
                        proof {
                            let now_pairs = spec_graph_pairs_upto(components@, i as int + 1);
                            assert(now_pairs =~= prev_pairs.push(
                                (
                                    components@[i as int],
                                    purl_core_of(components@[i as int].purl->Some_0@)->Some_0,
                                ),
                            ));
                        }
                    },
                    None => {
                        proof {
                            assert(spec_graph_pairs_upto(components@, i as int + 1)
                                =~= prev_pairs);
                        }
                    },
                }
            },
            None => {
                proof {
                    assert(spec_graph_pairs_upto(components@, i as int + 1) =~= prev_pairs);
                }
            },
        }
        i += 1;
    }
    proof {
        assert(spec_graph_pairs(components@) == spec_graph_pairs_upto(
            components@,
            components@.len() as int,
        ));
    }
    stmts
}

} // verus!
