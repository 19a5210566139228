//! The relational model of the registration records.
//!
//! Four tables hold the durable outcome of a registration: projects, scans,
//! packages and direct dependencies.  This module states and enforces their
//! rules — project names are unique, packages are deduplicated by PURL with
//! every reference converging on the stored row, and one dependency row is
//! written per component that carries a PURL.  The embedding application
//! mirrors these operations onto the external relational store; tests drive
//! the pipeline against this model.

use vstd::prelude::*;
use vstd::string::StringExecFns;

use crate::errors::RegisterError;
use crate::pipeline::{NewProject, RegisterResponse};
use crate::purl::{parse_purl, purl_core_of, PurlCore};
use crate::sbom::SbomComponent;
use crate::strutil::{clone_opt_string, opt_view, str_eq};

verus! {

/// One registered project.
#[derive(Debug, Clone)]
pub struct ProjectRow {
    pub id: i32,
    pub name: String,
    pub description: Option<String>,
    pub repo_url: Option<String>,
    pub package_manager: Option<String>,
    pub sbom_path: Option<String>,
    pub source_path: Option<String>,
    pub sbom_format: Option<String>,
    pub last_scanned_at: Option<i64>,
    pub created_at: i64,
    pub updated_at: i64,
}

/// One registration attempt that reached persistence.
#[derive(Debug, Clone)]
pub struct ScanRow {
    pub id: i32,
    pub project_id: i32,
    pub package_manager: Option<String>,
    pub source_path: Option<String>,
    pub sbom_path: Option<String>,
    pub sbom_format: Option<String>,
    pub scanner: Option<String>,
    pub status: Option<String>,
    pub started_at: Option<i64>,
    pub completed_at: Option<i64>,
    pub created_at: i64,
    pub updated_at: i64,
}

/// One distinct package, shared across all projects and scans.
#[derive(Debug, Clone)]
pub struct PackageRow {
    pub id: i32,
    pub purl: String,
    pub purl_type: String,
    pub namespace: Option<String>,
    pub name: String,
    pub qualifiers: Vec<(String, String)>,
    pub created_at: i64,
    pub updated_at: i64,
}

/// One (scan, component) dependency edge.
#[derive(Debug, Clone)]
pub struct DependencyRow {
    pub id: i32,
    pub scan_id: i32,
    pub project_id: i32,
    pub package_id: i32,
    pub declared_constraint: Option<String>,
    pub resolved_version: Option<String>,
    pub scope: Option<String>,
    pub manager: Option<String>,
    pub registry: Option<String>,
    pub bom_ref: Option<String>,
    pub is_optional: bool,
    pub created_at: i64,
    pub updated_at: i64,
}

/// The four tables.
#[derive(Debug)]
pub struct Store {
    pub projects: Vec<ProjectRow>,
    pub scans: Vec<ScanRow>,
    pub packages: Vec<PackageRow>,
    pub deps: Vec<DependencyRow>,
}

/// The index of the first project at or after position `i` named `name`.
pub open spec fn spec_project_idx_from(rows: Seq<ProjectRow>, name: Seq<char>, i: int) -> Option<
    int,
>
    decreases rows.len() - i,
{
    if i < 0 || i >= rows.len() {
        None
    } else if rows[i].name@ == name {
        Some(i)
    } else {
        spec_project_idx_from(rows, name, i + 1)
    }
}

/// The index of the first package at or after position `i` whose PURL is
/// `purl`.
pub open spec fn spec_package_idx_from(rows: Seq<PackageRow>, purl: Seq<char>, i: int) -> Option<
    int,
>
    decreases rows.len() - i,
{
    if i < 0 || i >= rows.len() {
        None
    } else if rows[i].purl@ == purl {
        Some(i)
    } else {
        spec_package_idx_from(rows, purl, i + 1)
    }
}

proof fn lemma_no_project_match(rows: Seq<ProjectRow>, name: Seq<char>, i: int)
    requires
        0 <= i,
        spec_project_idx_from(rows, name, i) is None,
    ensures
        forall|j: int| i <= j < rows.len() ==> (#[trigger] rows[j]).name@ != name,
    decreases rows.len() - i,
{
    if i < rows.len() {
        lemma_no_project_match(rows, name, i + 1);
    }
}

proof fn lemma_no_package_match(rows: Seq<PackageRow>, purl: Seq<char>, i: int)
    requires
        0 <= i,
        spec_package_idx_from(rows, purl, i) is None,
    ensures
        forall|j: int| i <= j < rows.len() ==> (#[trigger] rows[j]).purl@ != purl,
    decreases rows.len() - i,
{
    if i < rows.len() {
        lemma_no_package_match(rows, purl, i + 1);
    }
}

proof fn lemma_package_idx_found(rows: Seq<PackageRow>, purl: Seq<char>, i: int)
    requires
        0 <= i,
        spec_package_idx_from(rows, purl, i) is Some,
    ensures
        spec_package_idx_from(rows, purl, i) matches Some(ix) && i <= ix < rows.len()
            && rows[ix].purl@ == purl,
    decreases rows.len() - i,
{
    if i < rows.len() && rows[i].purl@ != purl {
        lemma_package_idx_found(rows, purl, i + 1);
    }
}

/// The fields a first-referenced package is stored with: the PURL itself and
/// the parts its parse yields, stamped with the shared timestamp.
pub open spec fn package_row_matches(
    row: PackageRow,
    purl: Seq<char>,
    core: PurlCore,
    now: i64,
) -> bool {
    &&& row.purl@ == purl
    &&& row.purl_type@ == core.ty
    &&& opt_view(row.namespace) == core.namespace
    &&& row.name@ == core.name
    &&& row.created_at == now
    &&& row.updated_at == now
}

/// The fields a new project is stored with.
pub open spec fn project_row_matches(
    row: ProjectRow,
    payload: NewProject,
    pm: Option<String>,
    sbom_path: Option<String>,
    source_path: Option<String>,
    now: i64,
) -> bool {
    &&& row.name@ == payload.name@
    &&& opt_view(row.description) == opt_view(payload.description)
    &&& (row.repo_url matches Some(u) && u@ == payload.repo_url@)
    &&& opt_view(row.package_manager) == opt_view(pm)
    &&& opt_view(row.sbom_path) == opt_view(sbom_path)
    &&& opt_view(row.source_path) == opt_view(source_path)
    &&& (row.sbom_format matches Some(f) && f@ == "cyclonedx-json"@)
    &&& row.last_scanned_at == Some(now)
    &&& row.created_at == now
    &&& row.updated_at == now
}

/// The fields a new scan is stored with.
pub open spec fn scan_row_matches(
    row: ScanRow,
    project_id: i32,
    pm: Option<String>,
    sbom_path: Option<String>,
    source_path: Option<String>,
    now: i64,
) -> bool {
    &&& row.project_id == project_id
    &&& opt_view(row.package_manager) == opt_view(pm)
    &&& opt_view(row.sbom_path) == opt_view(sbom_path)
    &&& opt_view(row.source_path) == opt_view(source_path)
    &&& (row.sbom_format matches Some(f) && f@ == "cyclonedx-json"@)
    &&& (row.scanner matches Some(s) && s@ == "cdxgen"@)
    &&& (row.status matches Some(s) && s@ == "success"@)
    &&& row.started_at == Some(now)
    &&& row.completed_at == Some(now)
    &&& row.created_at == now
    &&& row.updated_at == now
}

/// The fields a dependency row is stored with for a component, and its link
/// to the package row carrying the component's PURL.
pub open spec fn dep_row_matches(
    row: DependencyRow,
    c: SbomComponent,
    scan_id: i32,
    project_id: i32,
    pm: Option<String>,
    now: i64,
    packages: Seq<PackageRow>,
) -> bool {
    &&& row.scan_id == scan_id
    &&& row.project_id == project_id
    &&& c.purl is Some
    &&& exists|p: int|
        0 <= p < packages.len() && (#[trigger] packages[p]).purl@ == c.purl->Some_0@
            && row.package_id == packages[p].id
    &&& row.declared_constraint is None
    &&& opt_view(row.resolved_version) == opt_view(c.version)
    &&& opt_view(row.scope) == opt_view(c.scope)
    &&& opt_view(row.manager) == opt_view(pm)
    &&& row.registry is None
    &&& opt_view(row.bom_ref) == opt_view(c.bom_ref)
    &&& row.is_optional == false
    &&& row.created_at == now
    &&& row.updated_at == now
}

/// How many components carry a PURL among the first `i`.
pub open spec fn count_with_purl_upto(cs: Seq<SbomComponent>, i: int) -> int
    decreases i,
{
    if i <= 0 {
        0
    } else {
        count_with_purl_upto(cs, i - 1) + (if cs[i - 1].purl is Some {
            1int
        } else {
            0int
        })
    }
}

/// How many components carry a PURL: exactly that many dependency rows are
/// written per scan.
pub open spec fn count_with_purl(cs: Seq<SbomComponent>) -> int {
    count_with_purl_upto(cs, cs.len() as int)
}

proof fn lemma_count_with_purl_upto_mono(cs: Seq<SbomComponent>, a: int, b: int)
    requires
        a <= b,
    ensures
        count_with_purl_upto(cs, a) <= count_with_purl_upto(cs, b),
    decreases b - a,
{
    if a < b {
        lemma_count_with_purl_upto_mono(cs, a, b - 1);
    }
}

proof fn lemma_count_with_purl_upto_bound(cs: Seq<SbomComponent>, i: int)
    ensures
        count_with_purl_upto(cs, i) <= (if i >= 0 {
            i
        } else {
            0int
        }),
        count_with_purl_upto(cs, i) >= 0,
    decreases (if i >= 0 {
        i
    } else {
        0int
    }),
{
    if i > 0 {
        lemma_count_with_purl_upto_bound(cs, i - 1);
    }
}

impl Store {
    /// Well-formedness: ids are dense and positive, project names are
    /// unique, and PURLs identify at most one package row.
    pub open spec fn wf(&self) -> bool {
        &&& forall|i: int|
            0 <= i < self.projects@.len() ==> (#[trigger] self.projects@[i]).id == i + 1
        &&& forall|i: int| 0 <= i < self.scans@.len() ==> (#[trigger] self.scans@[i]).id == i + 1
        &&& forall|i: int|
            0 <= i < self.packages@.len() ==> (#[trigger] self.packages@[i]).id == i + 1
        &&& forall|i: int| 0 <= i < self.deps@.len() ==> (#[trigger] self.deps@[i]).id == i + 1
        &&& forall|i: int, j: int|
            0 <= i < self.projects@.len() && 0 <= j < self.projects@.len() && i != j ==> (
            #[trigger] self.projects@[i]).name@ != (#[trigger] self.projects@[j]).name@
        &&& forall|i: int, j: int|
            0 <= i < self.packages@.len() && 0 <= j < self.packages@.len() && i != j ==> (
            #[trigger] self.packages@[i]).purl@ != (#[trigger] self.packages@[j]).purl@
    }

    /// An empty store.
    pub fn new() -> (r: Self)
        ensures
            r.wf(),
            r.projects@.len() == 0,
            r.scans@.len() == 0,
            r.packages@.len() == 0,
            r.deps@.len() == 0,
    {
        Store { projects: Vec::new(), scans: Vec::new(), packages: Vec::new(), deps: Vec::new() }
    }

    /// The id of the project named `name`, if one is stored.
    pub fn find_project_by_name(&self, name: &str) -> (r: Option<i32>)
        ensures
            r is Some <==> spec_project_idx_from(self.projects@, name@, 0) is Some,
            r matches Some(id) ==> spec_project_idx_from(self.projects@, name@, 0) matches Some(ix)
                && self.projects@[ix].id == id,
    {
        let n = self.projects.len();
        let mut i: usize = 0;
        while i < n
            invariant
                n == self.projects@.len(),
                i <= n,
                spec_project_idx_from(self.projects@, name@, 0) == spec_project_idx_from(
                    self.projects@,
                    name@,
                    i as int,
                ),
            decreases n - i,
        {
            if str_eq(self.projects[i].name.as_str(), name) {
                return Some(self.projects[i].id);
            }
            i += 1;
        }
        None
    }

    /// The id of the package row carrying `purl`, if one is stored.
    pub fn find_package_by_purl(&self, purl: &str) -> (r: Option<i32>)
        ensures
            r is Some <==> spec_package_idx_from(self.packages@, purl@, 0) is Some,
            r matches Some(id) ==> spec_package_idx_from(self.packages@, purl@, 0) matches Some(ix)
                && self.packages@[ix].id == id,
    {
        let n = self.packages.len();
        let mut i: usize = 0;
        while i < n
            invariant
                n == self.packages@.len(),
                i <= n,
                spec_package_idx_from(self.packages@, purl@, 0) == spec_package_idx_from(
                    self.packages@,
                    purl@,
                    i as int,
                ),
            decreases n - i,
        {
            if str_eq(self.packages[i].purl.as_str(), purl) {
                return Some(self.packages[i].id);
            }
            i += 1;
        }
        None
    }

    /// Looks a package up by PURL and stores it on first reference.
    ///
    /// Every caller converges on one row per PURL: an already-stored PURL
    /// answers the stored row's id and changes nothing; a new, valid PURL is
    /// parsed and stored once; an unparsable PURL is a business-rule error.
    pub fn ensure_package(&mut self, purl: &str, now: i64) -> (r: Result<i32, RegisterError>)
        requires
            old(self).wf(),
            old(self).packages@.len() < 0x7fffffff,
        ensures
            final(self).wf(),
            final(self).projects@ == old(self).projects@,
            final(self).scans@ == old(self).scans@,
            final(self).deps@ == old(self).deps@,
            old(self).packages@.len() <= final(self).packages@.len(),
            final(self).packages@.subrange(0, old(self).packages@.len() as int) == old(self).packages@,
            r matches Ok(id) ==> exists|i: int|
                0 <= i < final(self).packages@.len() && (#[trigger] final(self).packages@[i]).purl@ == purl@
                    && final(self).packages@[i].id == id,
            spec_package_idx_from(old(self).packages@, purl@, 0) matches Some(ix) ==> (
            final(self).packages@ == old(self).packages@ && (r matches Ok(id) && id == old(
                self,
            ).packages@[ix].id)),
            spec_package_idx_from(old(self).packages@, purl@, 0) is None ==> (purl_core_of(purl@)
                matches Some(pc) ==> (r matches Ok(id) && id == old(self).packages@.len() + 1
                && final(self).packages@.len() == old(self).packages@.len() + 1 && package_row_matches(
                final(self).packages@.last(),
                purl@,
                pc,
                now,
            ) && final(self).packages@.last().id == id)),
            spec_package_idx_from(old(self).packages@, purl@, 0) is None && purl_core_of(purl@)
                is None ==> (final(self).packages@ == old(self).packages@ && (r matches Err(e)
                && e matches RegisterError::Biz(m) && m@ == "invalid purl"@)),
    {
        match self.find_package_by_purl(purl) {
            Some(id) => {
                proof {
                    lemma_package_idx_found(self.packages@, purl@, 0);
                }
                Ok(id)
            },
            None => {
                let parts = match parse_purl(purl) {
                    Some(p) => p,
                    None => {
                        return Err(RegisterError::Biz(String::from_str("invalid purl")));
                    },
                };
                proof {
                    lemma_no_package_match(self.packages@, purl@, 0);
                }
                let id = (self.packages.len() as i32) + 1;
                let row = PackageRow {
                    id,
                    purl: String::from_str(purl),
                    purl_type: parts.ty,
                    namespace: parts.namespace,
                    name: parts.name,
                    qualifiers: parts.qualifiers,
                    created_at: now,
                    updated_at: now,
                };
                self.packages.push(row);
                proof {
                    assert(self.packages@.subrange(0, old(self).packages@.len() as int) =~= old(
                        self,
                    ).packages@);
                }
                Ok(id)
            },
        }
    }

    /// Writes the project and its scan, in that order, sharing one
    /// timestamp — unless the name is already taken, which is a
    /// business-rule error raised before any insert.
    pub fn persist_project_and_scan(
        &mut self,
        payload: &NewProject,
        pm_string: &Option<String>,
        sbom_path_to_store: &Option<String>,
        source_path_to_store: &Option<String>,
        now: i64,
    ) -> (r: Result<RegisterResponse, RegisterError>)
        requires
            old(self).wf(),
            old(self).projects@.len() < 0x7fffffff,
            old(self).scans@.len() < 0x7fffffff,
        ensures
            final(self).wf(),
            final(self).packages@ == old(self).packages@,
            final(self).deps@ == old(self).deps@,
            spec_project_idx_from(old(self).projects@, payload.name@, 0) is Some ==> ((
            r matches Err(e) && e matches RegisterError::Biz(m) && m@
                == "project name already exists"@) && final(self).projects@ == old(self).projects@
                && final(self).scans@ == old(self).scans@),
            spec_project_idx_from(old(self).projects@, payload.name@, 0) is None ==> (r matches Ok(
                resp,
            ) && final(self).projects@.len() == old(self).projects@.len() + 1 && final(self).projects@.subrange(
                0,
                old(self).projects@.len() as int,
            ) == old(self).projects@ && project_row_matches(
                final(self).projects@.last(),
                *payload,
                *pm_string,
                *sbom_path_to_store,
                *source_path_to_store,
                now,
            ) && resp.project_id == final(self).projects@.last().id && final(self).scans@.len() == old(
                self,
            ).scans@.len() + 1 && final(self).scans@.subrange(0, old(self).scans@.len() as int) == old(
                self,
            ).scans@ && scan_row_matches(
                final(self).scans@.last(),
                final(self).projects@.last().id,
                *pm_string,
                *sbom_path_to_store,
                *source_path_to_store,
                now,
            ) && resp.scan_id == final(self).scans@.last().id && resp.sbom_path == *sbom_path_to_store
                && resp.source_path == *source_path_to_store),
    {
        match self.find_project_by_name(payload.name.as_str()) {
            Some(_) => Err(
                RegisterError::Biz(String::from_str("project name already exists")),
            ),
            None => {
                proof {
                    lemma_no_project_match(self.projects@, payload.name@, 0);
                }
                let project_id = (self.projects.len() as i32) + 1;
                let project = ProjectRow {
                    id: project_id,
                    name: payload.name.clone(),
                    description: clone_opt_string(&payload.description),
                    repo_url: Some(payload.repo_url.clone()),
                    package_manager: clone_opt_string(pm_string),
                    sbom_path: clone_opt_string(sbom_path_to_store),
                    source_path: clone_opt_string(source_path_to_store),
                    sbom_format: Some(String::from_str("cyclonedx-json")),
                    last_scanned_at: Some(now),
                    created_at: now,
                    updated_at: now,
                };
                self.projects.push(project);
                let scan_id = (self.scans.len() as i32) + 1;
                let scan = ScanRow {
                    id: scan_id,
                    project_id,
                    package_manager: clone_opt_string(pm_string),
                    source_path: clone_opt_string(source_path_to_store),
                    sbom_path: clone_opt_string(sbom_path_to_store),
                    sbom_format: Some(String::from_str("cyclonedx-json")),
                    scanner: Some(String::from_str("cdxgen")),
                    status: Some(String::from_str("success")),
                    started_at: Some(now),
                    completed_at: Some(now),
                    created_at: now,
                    updated_at: now,
                };
                self.scans.push(scan);
                proof {
                    assert(self.projects@.subrange(0, old(self).projects@.len() as int) =~= old(
                        self,
                    ).projects@);
                    assert(self.scans@.subrange(0, old(self).scans@.len() as int) =~= old(
                        self,
                    ).scans@);
                }
                Ok(
                    RegisterResponse {
                        project_id,
                        scan_id,
                        sbom_path: clone_opt_string(sbom_path_to_store),
                        source_path: clone_opt_string(source_path_to_store),
                    },
                )
            },
        }
    }

    /// Writes one dependency row per component that carries a PURL,
    /// resolving or creating each component's package first; components
    /// without a PURL are skipped and contribute no row.
    pub fn insert_direct_dependencies(
        &mut self,
        project_id: i32,
        scan_id: i32,
        pm_string: &Option<String>,
        components: &Vec<SbomComponent>,
        now: i64,
    ) -> (r: Result<(), RegisterError>)
        requires
            old(self).wf(),
            old(self).deps@.len() + components@.len() < 0x7fffffff,
            old(self).packages@.len() + components@.len() < 0x7fffffff,
        ensures
            final(self).wf(),
            final(self).projects@ == old(self).projects@,
            final(self).scans@ == old(self).scans@,
            final(self).packages@.subrange(0, old(self).packages@.len() as int) == old(self).packages@,
            final(self).deps@.subrange(0, old(self).deps@.len() as int) == old(self).deps@,
            r is Ok ==> final(self).deps@.len() == old(self).deps@.len() + count_with_purl(components@),
            forall|k: int|
                old(self).deps@.len() <= k < final(self).deps@.len() ==> exists|j: int|
                    0 <= j < components@.len() && dep_row_matches(
                        #[trigger] final(self).deps@[k],
                        components@[j],
                        scan_id,
                        project_id,
                        *pm_string,
                        now,
                        final(self).packages@,
                    ),
            r is Ok ==> forall|j: int|
                0 <= j < components@.len() && (#[trigger] components@[j]).purl is Some
                    ==> dep_row_matches(
                    final(self).deps@[old(self).deps@.len() + count_with_purl_upto(
                        components@,
                        j,
                    )],
                    components@[j],
                    scan_id,
                    project_id,
                    *pm_string,
                    now,
                    final(self).packages@,
                ),
            r matches Err(e) ==> ((e matches RegisterError::Biz(m) && m@ == "invalid purl"@)
                && exists|j: int|
                0 <= j < components@.len() && ((#[trigger] components@[j]).purl matches Some(p)
                    && purl_core_of(p@) is None)),
    {
        let n = components.len();
        let mut i: usize = 0;
        while i < n
            invariant
                old(self).wf(),
                old(self).deps@.len() + components@.len() < 0x7fffffff,
                old(self).packages@.len() + components@.len() < 0x7fffffff,
                n == components@.len(),
                i <= n,
                self.wf(),
                self.projects@ == old(self).projects@,
                self.scans@ == old(self).scans@,
                self.packages@.subrange(0, old(self).packages@.len() as int) == old(
                    self,
                ).packages@,
                self.deps@.subrange(0, old(self).deps@.len() as int) == old(self).deps@,
                self.deps@.len() == old(self).deps@.len() + count_with_purl_upto(
                    components@,
                    i as int,
                ),
                self.packages@.len() <= old(self).packages@.len() + i,
                old(self).packages@.len() <= self.packages@.len(),
                old(self).deps@.len() <= self.deps@.len(),
                forall|k: int|
                    old(self).deps@.len() <= k < self.deps@.len() ==> exists|j: int|
                        0 <= j < components@.len() && dep_row_matches(
                            #[trigger] self.deps@[k],
                            components@[j],
                            scan_id,
                            project_id,
                            *pm_string,
                            now,
                            self.packages@,
                        ),
                forall|j: int|
                    0 <= j < i && (#[trigger] components@[j]).purl is Some ==> dep_row_matches(
                        self.deps@[old(self).deps@.len() + count_with_purl_upto(components@, j)],
                        components@[j],
                        scan_id,
                        project_id,
                        *pm_string,
                        now,
                        self.packages@,
                    ),
            decreases n - i,
        {
            let ghost pre = *self;
            proof {
                lemma_count_with_purl_upto_bound(components@, i as int);
            }
            if components[i].purl.is_some() {
                let purl_owned = match &components[i].purl {
                    Some(p) => p.clone(),
                    None => {
                        proof {
                            assert(false);
                        }
                        String::new()
                    },
                };
                let package_id = match self.ensure_package(purl_owned.as_str(), now) {
                    Ok(id) => id,
                    Err(e) => {
                        proof {
                            assert(components@[i as int].purl matches Some(p) && purl_core_of(p@)
                                is None);
                        }
                        return Err(e);
                    },
                };
                let id = (self.deps.len() as i32) + 1;
                let row = DependencyRow {
                    id,
                    scan_id,
                    project_id,
                    package_id,
                    declared_constraint: None,
                    resolved_version: clone_opt_string(&components[i].version),
                    scope: clone_opt_string(&components[i].scope),
                    manager: clone_opt_string(pm_string),
                    registry: None,
                    bom_ref: clone_opt_string(&components[i].bom_ref),
                    is_optional: false,
                    created_at: now,
                    updated_at: now,
                };
                self.deps.push(row);
                proof {
                    assert(self.packages@.subrange(0, pre.packages@.len() as int)
                        == pre.packages@);
                    assert forall|j: int| 0 <= j < old(self).packages@.len() implies
                        self.packages@[j] == old(self).packages@[j] by {
                        assert(pre.packages@.subrange(0, old(self).packages@.len() as int)[j]
                            == pre.packages@[j]);
                        assert(self.packages@.subrange(0, pre.packages@.len() as int)[j]
                            == self.packages@[j]);
                    }
                    assert(self.packages@.subrange(0, old(self).packages@.len() as int) =~= old(
                        self,
                    ).packages@);
                    assert(self.deps@.subrange(0, old(self).deps@.len() as int) =~= old(
                        self,
                    ).deps@);
                    assert(dep_row_matches(
                        self.deps@.last(),
                        components@[i as int],
                        scan_id,
                        project_id,
                        *pm_string,
                        now,
                        self.packages@,
                    ));
                    assert forall|k: int|
                        old(self).deps@.len() <= k < self.deps@.len() implies exists|j: int|
                        0 <= j < components@.len() && dep_row_matches(
                            #[trigger] self.deps@[k],
                            components@[j],
                            scan_id,
                            project_id,
                            *pm_string,
                            now,
                            self.packages@,
                        ) by {
                        if k < self.deps@.len() - 1 {
                            assert(pre.deps@.subrange(0, pre.deps@.len() as int) =~= pre.deps@);
                            assert(self.deps@[k] == pre.deps@[k]);
                            let j = choose|j: int|
                                0 <= j < components@.len() && dep_row_matches(
                                    pre.deps@[k],
                                    components@[j],
                                    scan_id,
                                    project_id,
                                    *pm_string,
                                    now,
                                    pre.packages@,
                                );
                            let c = components@[j];
                            let p = choose|p: int|
                                0 <= p < pre.packages@.len() && (#[trigger] pre.packages@[p]).purl@
                                    == c.purl->Some_0@ && pre.deps@[k].package_id
                                    == pre.packages@[p].id;
                            assert(self.packages@.subrange(0, pre.packages@.len() as int)[p]
                                == self.packages@[p]);
                            assert(self.packages@[p] == pre.packages@[p]);
                            assert(dep_row_matches(
                                self.deps@[k],
                                components@[j],
                                scan_id,
                                project_id,
                                *pm_string,
                                now,
                                self.packages@,
                            ));
                        } else {
                            assert(k == self.deps@.len() - 1);
                        }
                    }
                    assert forall|j: int|
                        0 <= j < i + 1 && (#[trigger] components@[j]).purl is Some implies
                        dep_row_matches(
                            self.deps@[old(self).deps@.len() + count_with_purl_upto(
                                components@,
                                j,
                            )],
                            components@[j],
                            scan_id,
                            project_id,
                            *pm_string,
                            now,
                            self.packages@,
                        ) by {
                        let pos = old(self).deps@.len() + count_with_purl_upto(components@, j);
                        if j < i {
                            lemma_count_with_purl_upto_bound(components@, j);
                            lemma_count_with_purl_upto_mono(components@, j + 1, i as int);
                            assert(pos < pre.deps@.len());
                            assert(self.deps@[pos] == pre.deps@[pos]);
                            assert(dep_row_matches(
                                pre.deps@[pos],
                                components@[j],
                                scan_id,
                                project_id,
                                *pm_string,
                                now,
                                pre.packages@,
                            ));
                            let c = components@[j];
                            let p = choose|p: int|
                                0 <= p < pre.packages@.len() && (#[trigger] pre.packages@[p]).purl@
                                    == c.purl->Some_0@ && pre.deps@[pos].package_id
                                    == pre.packages@[p].id;
                            assert(self.packages@.subrange(0, pre.packages@.len() as int)[p]
                                == self.packages@[p]);
                            assert(self.packages@[p] == pre.packages@[p]);
                        } else {
                            assert(pos == self.deps@.len() - 1);
                        }
                    }
                }
            }
            i += 1;
        }
        Ok(())
    }
}

/// At most one package row carries any given PURL: two rows with the same
/// PURL are the same row, so concurrent registrations referencing one PURL
/// converge on a single stored package.
pub proof fn lemma_package_dedup(s: Store, i: int, j: int)
    requires
        s.wf(),
        0 <= i < s.packages@.len(),
        0 <= j < s.packages@.len(),
        s.packages@[i].purl@ == s.packages@[j].purl@,
    ensures
        i == j,
{
}

/// Dependency rows written for the same PURL reference the same package
/// row, whichever scan or registration wrote them.
pub proof fn lemma_deps_on_same_purl_share_the_package(s: Store, purl: Seq<char>, i: int, j: int)
    requires
        s.wf(),
        0 <= i < s.deps@.len(),
        0 <= j < s.deps@.len(),
        exists|p: int|
            0 <= p < s.packages@.len() && (#[trigger] s.packages@[p]).purl@ == purl
                && s.deps@[i].package_id == s.packages@[p].id,
        exists|q: int|
            0 <= q < s.packages@.len() && (#[trigger] s.packages@[q]).purl@ == purl
                && s.deps@[j].package_id == s.packages@[q].id,
    ensures
        s.deps@[i].package_id == s.deps@[j].package_id,
{
    let p = choose|p: int|
        0 <= p < s.packages@.len() && (#[trigger] s.packages@[p]).purl@ == purl
            && s.deps@[i].package_id == s.packages@[p].id;
    let q = choose|q: int|
        0 <= q < s.packages@.len() && (#[trigger] s.packages@[q]).purl@ == purl
            && s.deps@[j].package_id == s.packages@[q].id;
    lemma_package_dedup(s, p, q);
}

/// At most one project row carries any given name: registration never
/// overwrites or duplicates an existing project.
pub proof fn lemma_project_name_unique(s: Store, i: int, j: int)
    requires
        s.wf(),
        0 <= i < s.projects@.len(),
        0 <= j < s.projects@.len(),
        s.projects@[i].name@ == s.projects@[j].name@,
    ensures
        i == j,
{
}

} // verus!
