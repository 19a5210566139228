//! The registration pipeline.
//!
//! One registration runs a fixed sequence of side-effecting steps against
//! five external systems: workspace creation, repository clone, ecosystem
//! detection, SBOM request, optional archive and uploads, relational
//! persistence, best-effort graph sync, and conditional workspace cleanup.
//! The decisions of that sequence live here as a state machine: the embedding
//! application performs each requested [`Action`] and reports its outcome as
//! an [`Event`]; the machine answers with the next action, the final
//! response, or the error that aborts the registration.

use vstd::prelude::*;
use vstd::string::StringExecFns;

use crate::config::languages::{spec_resolve_from, LanguagesConfig, DEFAULT_SBOM_TIMEOUT_SECONDS};
use crate::config::s3::S3Config;
use crate::ecosystem::{
    detect_language_and_package_type, spec_as_str, spec_cdxgen_profiles, spec_detect, PackageType,
};
use crate::errors::RegisterError;
use crate::graph::{graph_stmts_match, graph_sync_statements, GraphStatement};
use crate::purl::{parse_purl, purl_core_of, PurlCore};
use crate::sbom::{
    build_sbom_request, component_fields, parse_cyclonedx_components, resolve_cdxgen_base_url,
    sbom_components_of, sbom_request_matches, SbomComponent, SbomRequest,
};
use crate::strutil::{
    clone_opt_string, concat3, dash_spaces, dashed, opt_view, or_empty, path_inside,
    path_is_inside, push_char, trim_edge_slashes, without_edge_slashes,
};

verus! {

/// The request that registers a project.
#[derive(Debug, Clone)]
pub struct NewProject {
    /// The unique display name to register.
    pub name: String,
    /// An optional description.
    pub description: Option<String>,
    /// The repository URL to clone (validated by the caller).
    pub repo_url: String,
    /// Whether the SBOM document should go to object storage.
    pub store_sbom: Option<bool>,
    /// Whether a source archive should be built and stored.
    pub store_source: Option<bool>,
}

impl NewProject {
    /// Whether SBOM storage was requested; absent means no.
    pub open spec fn spec_store_sbom(&self) -> bool {
        match self.store_sbom {
            Some(b) => b,
            None => false,
        }
    }

    /// Whether source storage was requested; absent means no.
    pub open spec fn spec_store_source(&self) -> bool {
        match self.store_source {
            Some(b) => b,
            None => false,
        }
    }

    /// Whether SBOM storage was requested.
    pub fn wants_sbom_stored(&self) -> (r: bool)
        ensures
            r == self.spec_store_sbom(),
    {
        match self.store_sbom {
            Some(b) => b,
            None => false,
        }
    }

    /// Whether source storage was requested.
    pub fn wants_source_stored(&self) -> (r: bool)
        ensures
            r == self.spec_store_source(),
    {
        match self.store_source {
            Some(b) => b,
            None => false,
        }
    }
}

/// What a successful registration answers.
#[derive(Debug, Clone)]
pub struct RegisterResponse {
    /// The new project row's id.
    pub project_id: i32,
    /// The new scan row's id.
    pub scan_id: i32,
    /// Where the SBOM document ended up, if anywhere.
    pub sbom_path: Option<String>,
    /// Where the source archive ended up, if anywhere.
    pub source_path: Option<String>,
}

/// A project record to insert, as the pipeline determines it; the store
/// assigns the id.
#[derive(Debug, Clone)]
pub struct ProjectDraft {
    pub name: String,
    pub description: Option<String>,
    pub repo_url: Option<String>,
    pub package_manager: Option<String>,
    pub sbom_path: Option<String>,
    pub source_path: Option<String>,
    pub sbom_format: Option<String>,
    pub last_scanned_at: Option<i64>,
    pub created_at: i64,
    pub updated_at: i64,
}

/// A scan record to insert; the store assigns the id.
#[derive(Debug, Clone)]
pub struct ScanDraft {
    pub project_id: i32,
    pub package_manager: Option<String>,
    pub source_path: Option<String>,
    pub sbom_path: Option<String>,
    pub sbom_format: Option<String>,
    pub scanner: Option<String>,
    pub status: Option<String>,
    pub started_at: Option<i64>,
    pub completed_at: Option<i64>,
    pub created_at: i64,
    pub updated_at: i64,
}

/// A package record to insert on first reference; the store assigns the id.
#[derive(Debug, Clone)]
pub struct PackageDraft {
    pub purl: String,
    pub purl_type: String,
    pub namespace: Option<String>,
    pub name: String,
    pub qualifiers: Vec<(String, String)>,
    pub created_at: i64,
    pub updated_at: i64,
}

/// A dependency record to insert; the store assigns the id.
#[derive(Debug, Clone)]
pub struct DependencyDraft {
    pub scan_id: i32,
    pub project_id: i32,
    pub package_id: i32,
    pub declared_constraint: Option<String>,
    pub resolved_version: Option<String>,
    pub scope: Option<String>,
    pub manager: Option<String>,
    pub registry: Option<String>,
    pub bom_ref: Option<String>,
    pub is_optional: bool,
    pub created_at: i64,
    pub updated_at: i64,
}

/// What the embedding application must do next.
#[derive(Debug)]
pub enum Action {
    /// Create the per-registration workspace directory.
    CreateDir { path: String },
    /// Clone the repository into the workspace.
    CloneRepo { url: String, dest: String },
    /// Walk the cloned tree and list its file names, in walk order.
    ListTree { root: String },
    /// Issue the SBOM request and answer its body.
    HttpGetSbom { request: SbomRequest },
    /// Write the SBOM text to its local path.
    WriteFile { path: String, contents: String },
    /// Archive the directory tree into a compressed file, off-thread.
    ArchiveDir { src: String, dest: String },
    /// Upload the SBOM bytes under the given key.
    UploadSbomBytes { bucket: String, key: String, contents: String },
    /// Upload the archive file under the given key.
    UploadSourceFile { bucket: String, key: String, path: String },
    /// Ask the relational store whether a project of this name exists.
    FindProjectByName { name: String },
    /// Insert the project row.
    InsertProject { record: ProjectDraft },
    /// Insert the scan row.
    InsertScan { record: ScanDraft },
    /// Look a package up by PURL.
    FindPackage { purl: String },
    /// Insert a package row; a uniqueness conflict means another
    /// registration won the race.
    InsertPackage { record: PackageDraft },
    /// Insert a dependency row.
    InsertDependency { record: DependencyDraft },
    /// Run the graph transaction; its failure is reported but never aborts.
    SyncGraph { statements: Vec<GraphStatement> },
    /// Remove the workspace directory recursively.
    RemoveDir { path: String },
}

/// What the embedding application reports back.
#[derive(Debug)]
pub enum Event {
    DirCreated,
    DirCreateFailed { message: String },
    CloneOk,
    CloneFailed { message: String },
    TreeListed { names: Vec<String> },
    SbomResponse { body: String },
    SbomFailed { message: String },
    FileWritten,
    FileWriteFailed { message: String },
    ArchiveOk,
    ArchiveFailed { message: String },
    UploadOk,
    UploadFailed { message: String },
    NameTaken,
    NameFree,
    ProjectInserted { id: i32 },
    ProjectConflict,
    ScanInserted { id: i32 },
    PackageFound { id: i32 },
    PackageMissing,
    PackageInserted { id: i32 },
    PackageConflict,
    DependencyInserted,
    DbFailed { message: String },
    GraphSynced,
    GraphFailed { message: String },
    RemoveOk,
    RemoveFailed { message: String },
}

/// What the machine answers to an event.
#[derive(Debug)]
pub enum Outcome {
    /// Perform this action and report back.
    Next(Action),
    /// The registration succeeded.
    Done(RegisterResponse),
    /// The registration aborted with this error.
    Failed(RegisterError),
}

/// Where the machine stands.
#[derive(Debug, Clone, Copy, PartialEq, Eq, Structural)]
pub enum Phase {
    CreatingDir,
    Cloning,
    Listing,
    Requesting,
    WritingSbom,
    Archiving,
    UploadingSbom,
    UploadingSource,
    CheckingName,
    InsertingProject,
    InsertingScan,
    SeekingPackage,
    InsertingPackage,
    InsertingDependency,
    Syncing,
    Removing,
    Finished,
    Failed,
}

/// The workspace directory of a registration: a unique, collision-free name
/// under the temp root.
pub open spec fn spec_workspace_dir(base: Seq<char>, uid: Seq<char>) -> Seq<char> {
    base + "/check-deps-"@ + uid
}

/// The deterministic object-store key prefix of a registration:
/// `[<prefix>/]<name-with-dashes>-<uid>`.
pub open spec fn spec_base_key(prefix: Option<String>, name: Seq<char>, uid: Seq<char>) -> Seq<
    char,
> {
    let p = without_edge_slashes(or_empty(prefix));
    let stem = dashed(name) + seq!['-'] + uid;
    if p.len() == 0 {
        stem
    } else {
        p + seq!['/'] + stem
    }
}

/// The key the SBOM document is uploaded under.
pub open spec fn spec_sbom_key(prefix: Option<String>, name: Seq<char>, uid: Seq<char>) -> Seq<
    char,
> {
    spec_base_key(prefix, name, uid) + "/bom.json"@
}

/// The key the source archive is uploaded under.
pub open spec fn spec_source_key(prefix: Option<String>, name: Seq<char>, uid: Seq<char>) -> Seq<
    char,
> {
    spec_base_key(prefix, name, uid) + "/source.tar.gz"@
}

/// The scheme-qualified locator answered for a successful upload.
pub open spec fn spec_s3_locator(bucket: Seq<char>, key: Seq<char>) -> Seq<char> {
    "s3://"@ + bucket + seq!['/'] + key
}

/// Builds the locator of an uploaded object.
pub fn s3_locator(bucket: &str, key: &str) -> (r: String)
    ensures
        r@ == spec_s3_locator(bucket@, key@),
{
    let mut out = String::from_str("s3://");
    out.append(bucket);
    push_char(&mut out, '/');
    out.append(key);
    out
}

/// Whether the workspace may be deleted: only when neither stored artifact
/// path still points inside it, so that a locally kept artifact survives.
pub open spec fn spec_should_cleanup(
    tmp_dir: Seq<char>,
    sbom_path: Option<Seq<char>>,
    source_path: Option<Seq<char>>,
) -> bool {
    &&& (match sbom_path {
        Some(p) => !path_inside(p, tmp_dir),
        None => true,
    })
    &&& (match source_path {
        Some(p) => !path_inside(p, tmp_dir),
        None => true,
    })
}

/// Decides workspace cleanup from the stored artifact paths.
pub fn should_cleanup_workspace(
    tmp_dir: &str,
    sbom_path: &Option<String>,
    source_path: &Option<String>,
) -> (r: bool)
    ensures
        r == spec_should_cleanup(tmp_dir@, opt_view(*sbom_path), opt_view(*source_path)),
{
    let sbom_ok = match sbom_path {
        Some(p) => !path_is_inside(p.as_str(), tmp_dir),
        None => true,
    };
    let source_ok = match source_path {
        Some(p) => !path_is_inside(p.as_str(), tmp_dir),
        None => true,
    };
    sbom_ok && source_ok
}

/// The paths persisted with the project and scan: an uploaded SBOM's locator
/// wins over the local copy, which is always kept as fallback; the source
/// path is the locator if uploaded, else the local archive when one was
/// requested and built, else nothing.
pub fn resolve_artifact_paths(
    payload: &NewProject,
    sbom_path: &Option<String>,
    source_path: &Option<String>,
    sbom_local_path: &str,
    source_archive_path: &Option<String>,
) -> (r: (Option<String>, Option<String>))
    ensures
        sbom_path matches Some(p) ==> (r.0 matches Some(q) && q@ == p@),
        sbom_path is None ==> (r.0 matches Some(q) && q@ == sbom_local_path@),
        source_path matches Some(p) ==> (r.1 matches Some(q) && q@ == p@),
        source_path is None ==> opt_view(r.1) == (if payload.spec_store_source() {
            opt_view(*source_archive_path)
        } else {
            None
        }),
{
    let sbom_path_to_store = match sbom_path {
        Some(p) => Some(p.clone()),
        None => Some(sbom_local_path.to_owned()),
    };
    let mut source_path_to_store = clone_opt_string(source_path);
    if payload.wants_source_stored() && source_path_to_store.is_none() {
        source_path_to_store = clone_opt_string(source_archive_path);
    }
    (sbom_path_to_store, source_path_to_store)
}

/// The first component at or after position `i` that carries a PURL.
pub open spec fn spec_next_purl_idx(cs: Seq<SbomComponent>, i: int) -> Option<int>
    decreases cs.len() - i,
{
    if i < 0 || i >= cs.len() {
        None
    } else if cs[i].purl is Some {
        Some(i)
    } else {
        spec_next_purl_idx(cs, i + 1)
    }
}

/// One registration in flight.
pub struct Registration {
    /// The request being served.
    pub payload: NewProject,
    /// The SBOM-service profile table.
    pub languages: LanguagesConfig,
    /// The object-store settings.
    pub s3: S3Config,
    /// Whether a graph store is attached.
    pub graph_enabled: bool,
    /// The unique id used for the object-store key prefix.
    pub artifact_uid: String,
    /// The single timestamp shared by every record of this registration.
    pub now: i64,
    /// The workspace directory.
    pub tmp_dir: String,
    /// The detected ecosystem; meaningful once detection ran.
    pub package_type: PackageType,
    /// The stored package-manager label of the detected ecosystem.
    pub pm_label: Option<String>,
    /// The SBOM text; meaningful once the service answered.
    pub sbom_text: String,
    /// The extracted components; meaningful once the SBOM parsed.
    pub components: Vec<SbomComponent>,
    /// Where the source archive is being built, when requested.
    pub archive_path: Option<String>,
    /// The SBOM's store locator, once uploaded.
    pub sbom_locator: Option<String>,
    /// The archive's store locator, once uploaded.
    pub source_locator: Option<String>,
    /// The SBOM path persisted with the records.
    pub sbom_path_store: Option<String>,
    /// The source path persisted with the records.
    pub source_path_store: Option<String>,
    /// The project row's id, once inserted.
    pub project_id: i32,
    /// The scan row's id, once inserted.
    pub scan_id: i32,
    /// The component currently having its dependency row written.
    pub dep_idx: usize,
    /// A recorded graph-sync failure; observed only by a logger.
    pub graph_failure: Option<String>,
    /// A recorded cleanup failure; observed only by a logger.
    pub remove_failure: Option<String>,
    /// Where the machine stands.
    pub phase: Phase,
}

impl Registration {
    /// The internal consistency the machine keeps between events.
    pub open spec fn inv(&self) -> bool {
        &&& self.tmp_dir@.len() > 0 && self.tmp_dir@[0] == '/'
        &&& (self.phase is SeekingPackage || self.phase is InsertingPackage || self.phase
            is InsertingDependency) ==> (self.dep_idx < self.components@.len()
            && self.components@[self.dep_idx as int].purl is Some)
        &&& self.phase is UploadingSbom ==> self.payload.spec_store_sbom()
        &&& self.phase is UploadingSource ==> self.archive_path is Some
        &&& (self.phase is UploadingSbom || self.phase is UploadingSource) ==> (
            self.s3.bucket matches Some(b) && b@.len() > 0)
    }

    /// Which events may answer the pending action.
    pub open spec fn expects(&self, e: Event) -> bool {
        match self.phase {
            Phase::CreatingDir => e is DirCreated || e is DirCreateFailed,
            Phase::Cloning => e is CloneOk || e is CloneFailed,
            Phase::Listing => e is TreeListed,
            Phase::Requesting => e is SbomResponse || e is SbomFailed,
            Phase::WritingSbom => e is FileWritten || e is FileWriteFailed,
            Phase::Archiving => e is ArchiveOk || e is ArchiveFailed,
            Phase::UploadingSbom => e is UploadOk || e is UploadFailed,
            Phase::UploadingSource => e is UploadOk || e is UploadFailed,
            Phase::CheckingName => e is NameTaken || e is NameFree || e is DbFailed,
            Phase::InsertingProject => e is ProjectInserted || e is ProjectConflict
                || e is DbFailed,
            Phase::InsertingScan => e is ScanInserted || e is DbFailed,
            Phase::SeekingPackage => e is PackageFound || e is PackageMissing || e is DbFailed,
            Phase::InsertingPackage => e is PackageInserted || e is PackageConflict
                || e is DbFailed,
            Phase::InsertingDependency => e is DependencyInserted || e is DbFailed,
            Phase::Syncing => e is GraphSynced || e is GraphFailed,
            Phase::Removing => e is RemoveOk || e is RemoveFailed,
            Phase::Finished => false,
            Phase::Failed => false,
        }
    }

    /// The response a finished registration answers.
    pub open spec fn response_matches(&self, resp: RegisterResponse) -> bool {
        &&& resp.project_id == self.project_id
        &&& resp.scan_id == self.scan_id
        &&& opt_view(resp.sbom_path) == opt_view(self.sbom_path_store)
        &&& opt_view(resp.source_path) == opt_view(self.source_path_store)
    }

    /// Entering cleanup: the workspace is removed exactly when no stored
    /// artifact path still points inside it; otherwise the registration is
    /// done at once.
    pub open spec fn cleanup_entry(pre: Self, post: Self, o: Outcome) -> bool {
        if spec_should_cleanup(
            pre.tmp_dir@,
            opt_view(pre.sbom_path_store),
            opt_view(pre.source_path_store),
        ) {
            &&& post.phase is Removing
            &&& (o matches Outcome::Next(a) && a matches Action::RemoveDir { path } && path@
                == pre.tmp_dir@)
        } else {
            &&& post.phase is Finished
            &&& (o matches Outcome::Done(resp) && pre.response_matches(resp))
        }
    }

    /// Entering graph sync: when a graph store is attached the full statement
    /// list is handed out; otherwise cleanup follows at once.  Either way the
    /// registration can no longer fail.
    pub open spec fn sync_entry(pre: Self, post: Self, o: Outcome) -> bool {
        if pre.graph_enabled {
            &&& post.phase is Syncing
            &&& (o matches Outcome::Next(a) && a matches Action::SyncGraph { statements }
                && graph_stmts_match(
                statements@,
                pre.project_id,
                pre.scan_id,
                pre.payload,
                pre.pm_label,
                pre.components@,
            ))
        } else {
            Self::cleanup_entry(pre, post, o)
        }
    }

    /// Entering dependency insertion at or after component `start`: the next
    /// component with a PURL has its package looked up; with none left, graph
    /// sync (or cleanup) follows.
    pub open spec fn dep_entry(pre: Self, post: Self, o: Outcome, start: int) -> bool {
        match spec_next_purl_idx(pre.components@, start) {
            Some(j) => {
                &&& post.phase is SeekingPackage
                &&& post.dep_idx == j
                &&& (o matches Outcome::Next(a) && a matches Action::FindPackage { purl } && purl@
                    == pre.components@[j].purl->Some_0@)
            },
            None => Self::sync_entry(pre, post, o),
        }
    }

    /// Entering persistence: the artifact paths are resolved (locator wins,
    /// local path is the fallback) and the name-uniqueness pre-check is
    /// issued.
    pub open spec fn persist_entry(pre: Self, post: Self, o: Outcome) -> bool {
        &&& post.phase is CheckingName
        &&& (post.sbom_path_store matches Some(s) && s@ == (match pre.sbom_locator {
            Some(l) => l@,
            None => pre.tmp_dir@ + "/bom.json"@,
        }))
        &&& opt_view(post.source_path_store) == (match pre.source_locator {
            Some(l) => Some(l@),
            None => if pre.payload.spec_store_source() {
                opt_view(pre.archive_path)
            } else {
                None
            },
        })
        &&& (o matches Outcome::Next(a) && a matches Action::FindProjectByName { name } && name@
            == pre.payload.name@)
    }

    /// Entering the upload step: nothing is uploaded while storage is
    /// disabled; enabled storage demands a bucket and a region at this point;
    /// then the SBOM upload is issued first when requested, else the source
    /// upload, else persistence follows at once.
    pub open spec fn upload_entry(pre: Self, post: Self, o: Outcome) -> bool {
        if !pre.s3.spec_enabled() {
            Self::persist_entry(pre, post, o)
        } else if !(pre.s3.bucket matches Some(b) && b@.len() > 0) {
            post.phase is Failed && (o matches Outcome::Failed(e) && e is Config)
        } else if !(pre.s3.region matches Some(rg) && rg@.len() > 0) {
            post.phase is Failed && (o matches Outcome::Failed(e) && e is Config)
        } else if pre.payload.spec_store_sbom() {
            &&& post.phase is UploadingSbom
            &&& (o matches Outcome::Next(a) && a matches Action::UploadSbomBytes {
                bucket,
                key,
                contents,
            } && bucket@ == pre.s3.bucket->Some_0@ && key@ == spec_sbom_key(
                pre.s3.prefix,
                pre.payload.name@,
                pre.artifact_uid@,
            ) && contents@ == pre.sbom_text@)
        } else if pre.payload.spec_store_source() && pre.archive_path is Some {
            &&& post.phase is UploadingSource
            &&& (o matches Outcome::Next(a) && a matches Action::UploadSourceFile {
                bucket,
                key,
                path,
            } && bucket@ == pre.s3.bucket->Some_0@ && key@ == spec_source_key(
                pre.s3.prefix,
                pre.payload.name@,
                pre.artifact_uid@,
            ) && path@ == pre.archive_path->Some_0@)
        } else {
            Self::persist_entry(pre, post, o)
        }
    }

    /// Starts a registration: the workspace path is fixed from the temp root
    /// and the workspace uid, and its creation is the first action.  The
    /// temp root must be an absolute path.
    pub fn new(
        payload: NewProject,
        languages: LanguagesConfig,
        s3: S3Config,
        graph_enabled: bool,
        tmp_base: &str,
        workspace_uid: &str,
        artifact_uid: String,
        now: i64,
    ) -> (r: (Self, Action))
        requires
            tmp_base@.len() > 0 && tmp_base@[0] == '/',
        ensures
            r.0.inv(),
            r.0.phase is CreatingDir,
            r.0.payload == payload,
            r.0.languages == languages,
            r.0.s3 == s3,
            r.0.graph_enabled == graph_enabled,
            r.0.artifact_uid == artifact_uid,
            r.0.now == now,
            r.0.tmp_dir@ == spec_workspace_dir(tmp_base@, workspace_uid@),
            r.0.sbom_locator is None,
            r.0.source_locator is None,
            r.0.archive_path is None,
            r.0.graph_failure is None,
            r.1 matches Action::CreateDir { path } && path@ == r.0.tmp_dir@,
    {
        let tmp_dir = concat3(tmp_base, "/check-deps-", workspace_uid);
        let reg = Registration {
            payload,
            languages,
            s3,
            graph_enabled,
            artifact_uid,
            now,
            tmp_dir,
            package_type: PackageType::Unknown,
            pm_label: None,
            sbom_text: String::new(),
            components: Vec::new(),
            archive_path: None,
            sbom_locator: None,
            source_locator: None,
            sbom_path_store: None,
            source_path_store: None,
            project_id: 0,
            scan_id: 0,
            dep_idx: 0,
            graph_failure: None,
            remove_failure: None,
            phase: Phase::CreatingDir,
        };
        let path = reg.tmp_dir.clone();
        (reg, Action::CreateDir { path })
    }

    /// The response of this registration, built from the persisted state.
    fn make_response(&self) -> (r: RegisterResponse)
        ensures
            self.response_matches(r),
    {
        RegisterResponse {
            project_id: self.project_id,
            scan_id: self.scan_id,
            sbom_path: clone_opt_string(&self.sbom_path_store),
            source_path: clone_opt_string(&self.source_path_store),
        }
    }

    /// Aborts the registration with the given error.
    fn fail(&mut self, e: RegisterError) -> (o: Outcome)
        ensures
            *final(self) == (Registration { phase: Phase::Failed, ..*old(self) }),
            o matches Outcome::Failed(err) && err == e,
    {
        self.phase = Phase::Failed;
        Outcome::Failed(e)
    }

    /// Decides cleanup and finishes or asks for the removal.
    fn do_cleanup_entry(&mut self) -> (o: Outcome)
        requires
            old(self).inv(),
        ensures
            final(self).inv(),
            Self::cleanup_entry(*old(self), *final(self), o),
            *final(self) == (Registration { phase: final(self).phase, ..*old(self) }),
    {
        if should_cleanup_workspace(&self.tmp_dir, &self.sbom_path_store, &self.source_path_store)
        {
            self.phase = Phase::Removing;
            Outcome::Next(Action::RemoveDir { path: self.tmp_dir.clone() })
        } else {
            self.phase = Phase::Finished;
            Outcome::Done(self.make_response())
        }
    }

    /// Enters graph sync, or goes straight to cleanup without a graph store.
    fn do_sync_entry(&mut self) -> (o: Outcome)
        requires
            old(self).inv(),
        ensures
            final(self).inv(),
            Self::sync_entry(*old(self), *final(self), o),
            *final(self) == (Registration { phase: final(self).phase, ..*old(self) }),
    {
        if self.graph_enabled {
            let statements = graph_sync_statements(
                self.project_id,
                self.scan_id,
                &self.payload,
                &self.pm_label,
                &self.components,
            );
            self.phase = Phase::Syncing;
            Outcome::Next(Action::SyncGraph { statements })
        } else {
            self.do_cleanup_entry()
        }
    }

    /// Moves to the next component that carries a PURL, or past dependency
    /// insertion altogether.
    fn do_dep_entry(&mut self, start: usize) -> (o: Outcome)
        requires
            old(self).inv(),
        ensures
            final(self).inv(),
            Self::dep_entry(*old(self), *final(self), o, start as int),
            *final(self) == (Registration {
                phase: final(self).phase,
                dep_idx: final(self).dep_idx,
                ..*old(self)
            }),
    {
        let n = self.components.len();
        let mut j: usize = start;
        while j < n
            invariant
                old(self).inv(),
                *self == *old(self),
                n == self.components@.len(),
                start <= j,
                spec_next_purl_idx(self.components@, start as int) == spec_next_purl_idx(
                    self.components@,
                    j as int,
                ),
            decreases n - j,
        {
            if self.components[j].purl.is_some() {
                self.dep_idx = j;
                self.phase = Phase::SeekingPackage;
                let purl = match &self.components[j].purl {
                    Some(p) => p.clone(),
                    None => {
                        proof {
                            assert(false);
                        }
                        String::new()
                    },
                };
                return Outcome::Next(Action::FindPackage { purl });
            }
            j += 1;
        }
        self.do_sync_entry()
    }

    /// Resolves the artifact paths and issues the name pre-check.
    fn do_persist_entry(&mut self) -> (o: Outcome)
        requires
            old(self).inv(),
        ensures
            final(self).inv(),
            Self::persist_entry(*old(self), *final(self), o),
            *final(self) == (Registration {
                phase: final(self).phase,
                sbom_path_store: final(self).sbom_path_store,
                source_path_store: final(self).source_path_store,
                ..*old(self)
            }),
    {
        let mut sbom_local = self.tmp_dir.clone();
        sbom_local.append("/bom.json");
        let (sbom_store, source_store) = resolve_artifact_paths(
            &self.payload,
            &self.sbom_locator,
            &self.source_locator,
            sbom_local.as_str(),
            &self.archive_path,
        );
        self.sbom_path_store = sbom_store;
        self.source_path_store = source_store;
        self.phase = Phase::CheckingName;
        Outcome::Next(Action::FindProjectByName { name: self.payload.name.clone() })
    }

    /// Decides the uploads, or moves straight to persistence.
    fn do_upload_entry(&mut self) -> (o: Outcome)
        requires
            old(self).inv(),
        ensures
            final(self).inv(),
            Self::upload_entry(*old(self), *final(self), o),
            *final(self) == (Registration {
                phase: final(self).phase,
                sbom_path_store: final(self).sbom_path_store,
                source_path_store: final(self).source_path_store,
                ..*old(self)
            }),
    {
        if !self.s3.enabled() {
            return self.do_persist_entry();
        }
        let bucket = match &self.s3.bucket {
            Some(b) if !b.as_str().is_empty() => b.clone(),
            _ => {
                return self.fail(
                    RegisterError::Config(
                        String::from_str("s3 bucket is required when s3.enabled=true"),
                    ),
                );
            },
        };
        match &self.s3.region {
            Some(rg) if !rg.as_str().is_empty() => {},
            _ => {
                return self.fail(
                    RegisterError::Config(
                        String::from_str("s3 region is required when s3.enabled=true"),
                    ),
                );
            },
        }
        if self.payload.wants_sbom_stored() {
            let key = self.build_key("/bom.json");
            self.phase = Phase::UploadingSbom;
            Outcome::Next(
                Action::UploadSbomBytes { bucket, key, contents: self.sbom_text.clone() },
            )
        } else if self.payload.wants_source_stored() && self.archive_path.is_some() {
            let key = self.build_key("/source.tar.gz");
            let path = match &self.archive_path {
                Some(p) => p.clone(),
                None => {
                    proof {
                        assert(false);
                    }
                    String::new()
                },
            };
            self.phase = Phase::UploadingSource;
            Outcome::Next(Action::UploadSourceFile { bucket, key, path })
        } else {
            self.do_persist_entry()
        }
    }

    /// Builds an object key under this registration's deterministic prefix.
    fn build_key(&self, leaf: &str) -> (r: String)
        ensures
            r@ == spec_base_key(self.s3.prefix, self.payload.name@, self.artifact_uid@) + leaf@,
    {
        let prefix_raw = match &self.s3.prefix {
            Some(p) => p.as_str(),
            None => "",
        };
        proof {
            reveal_strlit("");
            assert(""@ =~= Seq::<char>::empty());
        }
        let prefix = trim_edge_slashes(prefix_raw);
        let mut key = String::new();
        if !prefix.is_empty() {
            key.append(prefix);
            push_char(&mut key, '/');
        }
        let safe_name = dash_spaces(self.payload.name.as_str());
        key.append(safe_name.as_str());
        push_char(&mut key, '-');
        key.append(self.artifact_uid.as_str());
        key.append(leaf);
        proof {
            assert(key@ =~= spec_base_key(self.s3.prefix, self.payload.name@, self.artifact_uid@)
                + leaf@);
        }
        key
    }

    /// Answers one reported event with the next step of the pipeline.
    ///
    /// Failures abort the registration with the matching error kind — except
    /// a graph-sync failure, which is recorded and swallowed, and a cleanup
    /// failure, which is recorded and still answers success.
    pub fn on_event(&mut self, e: Event) -> (o: Outcome)
        requires
            old(self).inv(),
            old(self).expects(e),
        ensures
            final(self).inv(),
            // workspace
            old(self).phase is CreatingDir && e is DirCreated ==> (*final(self) == (Registration {
                phase: Phase::Cloning,
                ..*old(self)
            }) && (o matches Outcome::Next(a) && a matches Action::CloneRepo { url, dest } && url@
                == old(self).payload.repo_url@ && dest@ == old(self).tmp_dir@)),
            old(self).phase is CreatingDir ==> (e matches Event::DirCreateFailed { message } ==> (
            final(self).phase is Failed && (o matches Outcome::Failed(err) && err matches
                RegisterError::WorkspaceIo(m) && m@ == message@))),
            // clone
            old(self).phase is Cloning && e is CloneOk ==> (*final(self) == (Registration {
                phase: Phase::Listing,
                ..*old(self)
            }) && (o matches Outcome::Next(a) && a matches Action::ListTree { root } && root@
                == old(self).tmp_dir@)),
            old(self).phase is Cloning ==> (e matches Event::CloneFailed { message } ==> (final(self).phase is Failed && (o matches Outcome::Failed(err) && err matches
                RegisterError::CloneFailed(m) && m@ == message@))),
            // detection and endpoint resolution
            old(self).phase is Listing ==> (e matches Event::TreeListed { names } ==> {
                let pt = spec_detect(names@);
                &&& final(self).package_type == pt
                &&& opt_view(final(self).pm_label) == spec_as_str(pt)
                &&& *final(self) == (Registration {
                    phase: final(self).phase,
                    package_type: final(self).package_type,
                    pm_label: final(self).pm_label,
                    ..*old(self)
                })
                &&& match spec_resolve_from(
                    old(self).languages.entries@,
                    spec_cdxgen_profiles(pt),
                    0,
                ) {
                    Some(base) => final(self).phase is Requesting && (o matches Outcome::Next(a)
                        && a matches Action::HttpGetSbom { request } && sbom_request_matches(
                        request,
                        base,
                        old(self).payload.repo_url@,
                        pt,
                        match old(self).languages.timeout_seconds {
                            Some(t) => t,
                            None => DEFAULT_SBOM_TIMEOUT_SECONDS as u64,
                        },
                    )),
                    None => final(self).phase is Failed && (o matches Outcome::Failed(err)
                        && err is Config),
                }
            }),
            // SBOM response
            old(self).phase is Requesting ==> (e matches Event::SbomResponse { body } ==> (*final(self) == (Registration { phase: Phase::WritingSbom, sbom_text: final(self).sbom_text, ..*old(self) })
                && final(self).sbom_text@ == body@ && (o matches Outcome::Next(a)
                && a matches Action::WriteFile { path, contents } && path@ == old(self).tmp_dir@
                + "/bom.json"@ && contents@ == body@))),
            old(self).phase is Requesting ==> (e matches Event::SbomFailed { message } ==> (final(self).phase is Failed && (o matches Outcome::Failed(err) && err matches
                RegisterError::SbomTransport(m) && m@ == message@))),
            // parse, then archive or upload
            old(self).phase is WritingSbom && e is FileWritten ==> (match sbom_components_of(
                old(self).sbom_text@,
            ) {
                None => final(self).phase is Failed && (o matches Outcome::Failed(err)
                    && err is SbomParse),
                Some(extracted) => {
                    &&& final(self).components@.map_values(
                        |c: SbomComponent| component_fields(c),
                    ) == extracted
                    &&& if old(self).payload.spec_store_source() {
                        final(self).phase is Archiving && (final(self).archive_path matches Some(d) && d@ == old(self).tmp_dir@
                            + "/source.tar.gz"@) && (o matches Outcome::Next(a)
                            && a matches Action::ArchiveDir { src, dest } && src@ == old(self).tmp_dir@ && dest@ == old(self).tmp_dir@ + "/source.tar.gz"@)
                    } else {
                        Self::upload_entry(*old(self), *final(self), o)
                    }
                },
            }),
            old(self).phase is WritingSbom ==> (e matches Event::FileWriteFailed { message } ==> (
            final(self).phase is Failed && (o matches Outcome::Failed(err) && err matches
                RegisterError::WorkspaceIo(m) && m@ == message@))),
            // archive
            old(self).phase is Archiving && e is ArchiveOk ==> Self::upload_entry(
                *old(self),
                *final(self),
                o,
            ),
            old(self).phase is Archiving ==> (e matches Event::ArchiveFailed { message } ==> (
            final(self).phase is Failed && (o matches Outcome::Failed(err) && err matches
                RegisterError::ArchiveIo(m) && m@ == message@))),
            // uploads
            old(self).phase is UploadingSbom && e is UploadOk ==> (final(self).sbom_locator matches Some(l) && l@ == spec_s3_locator(
                old(self).s3.bucket->Some_0@,
                spec_sbom_key(old(self).s3.prefix, old(self).payload.name@, old(self).artifact_uid@),
            ) && (if old(self).payload.spec_store_source() && old(self).archive_path is Some {
                final(self).phase is UploadingSource && (o matches Outcome::Next(a)
                    && a matches Action::UploadSourceFile { bucket, key, path } && bucket@ == old(self).s3.bucket->Some_0@ && key@ == spec_source_key(
                    old(self).s3.prefix,
                    old(self).payload.name@,
                    old(self).artifact_uid@,
                ) && path@ == old(self).archive_path->Some_0@)
            } else {
                Self::persist_entry(
                    (Registration { sbom_locator: final(self).sbom_locator, ..*old(self) }),
                    *final(self),
                    o,
                )
            })),
            old(self).phase is UploadingSource && e is UploadOk ==> ((final(self).source_locator matches Some(l) && l@ == spec_s3_locator(
                old(self).s3.bucket->Some_0@,
                spec_source_key(old(self).s3.prefix, old(self).payload.name@, old(self).artifact_uid@),
            )) && Self::persist_entry(
                (Registration { source_locator: final(self).source_locator, ..*old(self) }),
                *final(self),
                o,
            )),
            (old(self).phase is UploadingSbom || old(self).phase is UploadingSource) ==> (
            e matches Event::UploadFailed { message } ==> (final(self).phase is Failed && (
            o matches Outcome::Failed(err) && err matches RegisterError::Upload(m) && m@
                == message@))),
            // name pre-check
            old(self).phase is CheckingName && e is NameTaken ==> (final(self).phase is Failed && (
            o matches Outcome::Failed(err) && err matches RegisterError::Biz(m) && m@
                == "project name already exists"@)),
            old(self).phase is CheckingName && e is NameFree ==> (final(self).phase
                is InsertingProject && (o matches Outcome::Next(a)
                && a matches Action::InsertProject { record } && project_draft_matches(
                record,
                old(self).payload,
                old(self).pm_label,
                old(self).sbom_path_store,
                old(self).source_path_store,
                old(self).now,
            )) && *final(self) == (Registration { phase: Phase::InsertingProject, ..*old(self) })),
            // project insert
            old(self).phase is InsertingProject ==> (e matches Event::ProjectInserted { id } ==> (
            final(self).project_id == id && final(self).phase is InsertingScan && (
            o matches Outcome::Next(a) && a matches Action::InsertScan { record }
                && scan_draft_matches(
                record,
                id,
                old(self).pm_label,
                old(self).sbom_path_store,
                old(self).source_path_store,
                old(self).now,
            )) && *final(self) == (Registration {
                phase: Phase::InsertingScan,
                project_id: id,
                ..*old(self)
            }))),
            old(self).phase is InsertingProject && e is ProjectConflict ==> (final(self).phase
                is Failed && (o matches Outcome::Failed(err) && err matches RegisterError::Biz(m)
                && m@ == "project name already exists"@)),
            // scan insert, then the dependency loop
            old(self).phase is InsertingScan ==> (e matches Event::ScanInserted { id } ==> (final(self).scan_id == id && Self::dep_entry(
                (Registration { scan_id: id, ..*old(self) }),
                *final(self),
                o,
                0,
            ))),
            // package resolution
            old(self).phase is SeekingPackage ==> (e matches Event::PackageFound { id } ==> (
            final(self).phase is InsertingDependency && (o matches Outcome::Next(a)
                && a matches Action::InsertDependency { record } && dependency_draft_matches(
                record,
                old(self).components@[old(self).dep_idx as int],
                old(self).scan_id,
                old(self).project_id,
                id,
                old(self).pm_label,
                old(self).now,
            )) && *final(self) == (Registration {
                phase: Phase::InsertingDependency,
                ..*old(self)
            }))),
            old(self).phase is SeekingPackage && e is PackageMissing ==> {
                let purl = old(self).components@[old(self).dep_idx as int].purl->Some_0;
                match purl_core_of(purl@) {
                    Some(c) => final(self).phase is InsertingPackage && (o matches Outcome::Next(a)
                        && a matches Action::InsertPackage { record } && package_draft_matches(
                        record,
                        purl@,
                        c,
                        old(self).now,
                    )) && *final(self) == (Registration {
                        phase: Phase::InsertingPackage,
                        ..*old(self)
                    }),
                    None => final(self).phase is Failed && (o matches Outcome::Failed(err)
                        && err matches RegisterError::Biz(m) && m@ == "invalid purl"@),
                }
            },
            old(self).phase is InsertingPackage ==> (e matches Event::PackageInserted { id } ==> (
            final(self).phase is InsertingDependency && (o matches Outcome::Next(a)
                && a matches Action::InsertDependency { record } && dependency_draft_matches(
                record,
                old(self).components@[old(self).dep_idx as int],
                old(self).scan_id,
                old(self).project_id,
                id,
                old(self).pm_label,
                old(self).now,
            )) && *final(self) == (Registration {
                phase: Phase::InsertingDependency,
                ..*old(self)
            }))),
            old(self).phase is InsertingPackage && e is PackageConflict ==> (final(self).phase
                is SeekingPackage && (o matches Outcome::Next(a)
                && a matches Action::FindPackage { purl } && purl@ == old(self).components@[old(self).dep_idx as int].purl->Some_0@) && *final(self) == (Registration {
                phase: Phase::SeekingPackage,
                ..*old(self)
            })),
            old(self).phase is InsertingDependency && e is DependencyInserted ==> Self::dep_entry(
                *old(self),
                *final(self),
                o,
                old(self).dep_idx + 1,
            ),
            // any relational failure aborts
            (old(self).phase is CheckingName || old(self).phase is InsertingProject || old(self).phase is InsertingScan || old(self).phase is SeekingPackage || old(self).phase
                is InsertingPackage || old(self).phase is InsertingDependency) ==> (
            e matches Event::DbFailed { message } ==> (final(self).phase is Failed && (
            o matches Outcome::Failed(err) && err matches RegisterError::Persistence(m) && m@
                == message@))),
            // graph sync never fails the registration
            old(self).phase is Syncing && e is GraphSynced ==> (final(self).graph_failure == old(self).graph_failure && Self::cleanup_entry(*old(self), *final(self), o)),
            old(self).phase is Syncing ==> (e matches Event::GraphFailed { message } ==> (final(self).graph_failure matches Some(m) && m@ == message@ && Self::cleanup_entry(
                (Registration { graph_failure: final(self).graph_failure, ..*old(self) }),
                *final(self),
                o,
            ))),
            // cleanup failures are recorded, never surfaced
            old(self).phase is Removing && e is RemoveOk ==> (final(self).phase is Finished && (
            o matches Outcome::Done(resp) && old(self).response_matches(resp))),
            old(self).phase is Removing ==> (e matches Event::RemoveFailed { message } ==> (final(self).phase is Finished && (final(self).remove_failure matches Some(m) && m@ == message@)
                && (o matches Outcome::Done(resp) && old(self).response_matches(resp)))),
    {
        match e {
            Event::DirCreated => {
                self.phase = Phase::Cloning;
                Outcome::Next(
                    Action::CloneRepo {
                        url: self.payload.repo_url.clone(),
                        dest: self.tmp_dir.clone(),
                    },
                )
            },
            Event::DirCreateFailed { message } => self.fail(RegisterError::WorkspaceIo(message)),
            Event::CloneOk => {
                self.phase = Phase::Listing;
                Outcome::Next(Action::ListTree { root: self.tmp_dir.clone() })
            },
            Event::CloneFailed { message } => self.fail(RegisterError::CloneFailed(message)),
            Event::TreeListed { names } => {
                let pt = detect_language_and_package_type(&names);
                self.package_type = pt;
                self.pm_label = match pt.as_str() {
                    Some(s) => Some(s.to_owned()),
                    None => None,
                };
                match resolve_cdxgen_base_url(&self.languages, pt) {
                    Ok(base) => {
                        let request = build_sbom_request(
                            base.as_str(),
                            self.payload.repo_url.as_str(),
                            pt,
                            self.languages.timeout_seconds(),
                        );
                        self.phase = Phase::Requesting;
                        Outcome::Next(Action::HttpGetSbom { request })
                    },
                    Err(err) => self.fail(err),
                }
            },
            Event::SbomResponse { body } => {
                self.sbom_text = body;
                self.phase = Phase::WritingSbom;
                let mut path = self.tmp_dir.clone();
                path.append("/bom.json");
                Outcome::Next(Action::WriteFile { path, contents: self.sbom_text.clone() })
            },
            Event::SbomFailed { message } => self.fail(RegisterError::SbomTransport(message)),
            Event::FileWritten => {
                match parse_cyclonedx_components(self.sbom_text.as_str()) {
                    Err(err) => self.fail(err),
                    Ok(cs) => {
                        self.components = cs;
                        if self.payload.wants_source_stored() {
                            let mut dest = self.tmp_dir.clone();
                            dest.append("/source.tar.gz");
                            self.archive_path = Some(dest.clone());
                            self.phase = Phase::Archiving;
                            Outcome::Next(
                                Action::ArchiveDir { src: self.tmp_dir.clone(), dest },
                            )
                        } else {
                            self.do_upload_entry()
                        }
                    },
                }
            },
            Event::FileWriteFailed { message } => self.fail(RegisterError::WorkspaceIo(message)),
            Event::ArchiveOk => self.do_upload_entry(),
            Event::ArchiveFailed { message } => self.fail(RegisterError::ArchiveIo(message)),
            Event::UploadOk => {
                let bucket = match &self.s3.bucket {
                    Some(b) => b.clone(),
                    None => {
                        proof {
                            assert(false);
                        }
                        String::new()
                    },
                };
                if matches!(self.phase, Phase::UploadingSbom) {
                    let key = self.build_key("/bom.json");
                    self.sbom_locator = Some(s3_locator(bucket.as_str(), key.as_str()));
                    if self.payload.wants_source_stored() && self.archive_path.is_some() {
                        let skey = self.build_key("/source.tar.gz");
                        let path = match &self.archive_path {
                            Some(p) => p.clone(),
                            None => {
                                proof {
                                    assert(false);
                                }
                                String::new()
                            },
                        };
                        self.phase = Phase::UploadingSource;
                        Outcome::Next(Action::UploadSourceFile { bucket, key: skey, path })
                    } else {
                        self.do_persist_entry()
                    }
                } else {
                    let key = self.build_key("/source.tar.gz");
                    self.source_locator = Some(s3_locator(bucket.as_str(), key.as_str()));
                    self.do_persist_entry()
                }
            },
            Event::UploadFailed { message } => self.fail(RegisterError::Upload(message)),
            Event::NameTaken => self.fail(
                RegisterError::Biz(String::from_str("project name already exists")),
            ),
            Event::NameFree => {
                let record = ProjectDraft {
                    name: self.payload.name.clone(),
                    description: clone_opt_string(&self.payload.description),
                    repo_url: Some(self.payload.repo_url.clone()),
                    package_manager: clone_opt_string(&self.pm_label),
                    sbom_path: clone_opt_string(&self.sbom_path_store),
                    source_path: clone_opt_string(&self.source_path_store),
                    sbom_format: Some(String::from_str("cyclonedx-json")),
                    last_scanned_at: Some(self.now),
                    created_at: self.now,
                    updated_at: self.now,
                };
                self.phase = Phase::InsertingProject;
                Outcome::Next(Action::InsertProject { record })
            },
            Event::ProjectInserted { id } => {
                self.project_id = id;
                let record = ScanDraft {
                    project_id: id,
                    package_manager: clone_opt_string(&self.pm_label),
                    source_path: clone_opt_string(&self.source_path_store),
                    sbom_path: clone_opt_string(&self.sbom_path_store),
                    sbom_format: Some(String::from_str("cyclonedx-json")),
                    scanner: Some(String::from_str("cdxgen")),
                    status: Some(String::from_str("success")),
                    started_at: Some(self.now),
                    completed_at: Some(self.now),
                    created_at: self.now,
                    updated_at: self.now,
                };
                self.phase = Phase::InsertingScan;
                Outcome::Next(Action::InsertScan { record })
            },
            Event::ProjectConflict => self.fail(
                RegisterError::Biz(String::from_str("project name already exists")),
            ),
            Event::ScanInserted { id } => {
                self.scan_id = id;
                self.do_dep_entry(0)
            },
            Event::PackageFound { id } => {
                self.phase = Phase::InsertingDependency;
                Outcome::Next(Action::InsertDependency { record: self.dependency_draft(id) })
            },
            Event::PackageMissing => {
                let purl = match &self.components[self.dep_idx].purl {
                    Some(p) => p.clone(),
                    None => {
                        proof {
                            assert(false);
                        }
                        String::new()
                    },
                };
                match parse_purl(purl.as_str()) {
                    None => self.fail(RegisterError::Biz(String::from_str("invalid purl"))),
                    Some(parts) => {
                        let record = PackageDraft {
                            purl,
                            purl_type: parts.ty,
                            namespace: parts.namespace,
                            name: parts.name,
                            qualifiers: parts.qualifiers,
                            created_at: self.now,
                            updated_at: self.now,
                        };
                        self.phase = Phase::InsertingPackage;
                        Outcome::Next(Action::InsertPackage { record })
                    },
                }
            },
            Event::PackageInserted { id } => {
                self.phase = Phase::InsertingDependency;
                Outcome::Next(Action::InsertDependency { record: self.dependency_draft(id) })
            },
            Event::PackageConflict => {
                let purl = match &self.components[self.dep_idx].purl {
                    Some(p) => p.clone(),
                    None => {
                        proof {
                            assert(false);
                        }
                        String::new()
                    },
                };
                self.phase = Phase::SeekingPackage;
                Outcome::Next(Action::FindPackage { purl })
            },
            Event::DependencyInserted => {
                let len_now = self.components.len();
                proof {
                    assert(self.dep_idx < len_now);
                }
                let next = self.dep_idx + 1;
                self.do_dep_entry(next)
            },
            Event::DbFailed { message } => self.fail(RegisterError::Persistence(message)),
            Event::GraphSynced => self.do_cleanup_entry(),
            Event::GraphFailed { message } => {
                self.graph_failure = Some(message);
                self.do_cleanup_entry()
            },
            Event::RemoveOk => {
                self.phase = Phase::Finished;
                Outcome::Done(self.make_response())
            },
            Event::RemoveFailed { message } => {
                self.remove_failure = Some(message);
                self.phase = Phase::Finished;
                Outcome::Done(self.make_response())
            },
        }
    }

    /// The dependency row of the component at hand, referencing the resolved
    /// package.
    fn dependency_draft(&self, package_id: i32) -> (r: DependencyDraft)
        requires
            self.dep_idx < self.components@.len(),
        ensures
            dependency_draft_matches(
                r,
                self.components@[self.dep_idx as int],
                self.scan_id,
                self.project_id,
                package_id,
                self.pm_label,
                self.now,
            ),
    {
        let c = &self.components[self.dep_idx];
        DependencyDraft {
            scan_id: self.scan_id,
            project_id: self.project_id,
            package_id,
            declared_constraint: None,
            resolved_version: clone_opt_string(&c.version),
            scope: clone_opt_string(&c.scope),
            manager: clone_opt_string(&self.pm_label),
            registry: None,
            bom_ref: clone_opt_string(&c.bom_ref),
            is_optional: false,
            created_at: self.now,
            updated_at: self.now,
        }
    }
}

/// The fields a project draft carries.
pub open spec fn project_draft_matches(
    d: ProjectDraft,
    payload: NewProject,
    pm: Option<String>,
    sbom_path: Option<String>,
    source_path: Option<String>,
    now: i64,
) -> bool {
    &&& d.name@ == payload.name@
    &&& opt_view(d.description) == opt_view(payload.description)
    &&& (d.repo_url matches Some(u) && u@ == payload.repo_url@)
    &&& opt_view(d.package_manager) == opt_view(pm)
    &&& opt_view(d.sbom_path) == opt_view(sbom_path)
    &&& opt_view(d.source_path) == opt_view(source_path)
    &&& (d.sbom_format matches Some(f) && f@ == "cyclonedx-json"@)
    &&& d.last_scanned_at == Some(now)
    &&& d.created_at == now
    &&& d.updated_at == now
}

/// The fields a scan draft carries.
pub open spec fn scan_draft_matches(
    d: ScanDraft,
    project_id: i32,
    pm: Option<String>,
    sbom_path: Option<String>,
    source_path: Option<String>,
    now: i64,
) -> bool {
    &&& d.project_id == project_id
    &&& opt_view(d.package_manager) == opt_view(pm)
    &&& opt_view(d.sbom_path) == opt_view(sbom_path)
    &&& opt_view(d.source_path) == opt_view(source_path)
    &&& (d.sbom_format matches Some(f) && f@ == "cyclonedx-json"@)
    &&& (d.scanner matches Some(s) && s@ == "cdxgen"@)
    &&& (d.status matches Some(s) && s@ == "success"@)
    &&& d.started_at == Some(now)
    &&& d.completed_at == Some(now)
    &&& d.created_at == now
    &&& d.updated_at == now
}

/// The fields a package draft carries: the PURL and what it parses to.
pub open spec fn package_draft_matches(
    d: PackageDraft,
    purl: Seq<char>,
    core: PurlCore,
    now: i64,
) -> bool {
    &&& d.purl@ == purl
    &&& d.purl_type@ == core.ty
    &&& opt_view(d.namespace) == core.namespace
    &&& d.name@ == core.name
    &&& d.created_at == now
    &&& d.updated_at == now
}

/// The fields a dependency draft carries for a component.
pub open spec fn dependency_draft_matches(
    d: DependencyDraft,
    c: SbomComponent,
    scan_id: i32,
    project_id: i32,
    package_id: i32,
    pm: Option<String>,
    now: i64,
) -> bool {
    &&& d.scan_id == scan_id
    &&& d.project_id == project_id
    &&& d.package_id == package_id
    &&& d.declared_constraint is None
    &&& opt_view(d.resolved_version) == opt_view(c.version)
    &&& opt_view(d.scope) == opt_view(c.scope)
    &&& opt_view(d.manager) == opt_view(pm)
    &&& d.registry is None
    &&& opt_view(d.bom_ref) == opt_view(c.bom_ref)
    &&& d.is_optional == false
    &&& d.created_at == now
    &&& d.updated_at == now
}

/// When object storage is disabled, the stored SBOM path is the local copy
/// inside the workspace, so the workspace is kept.
pub proof fn lemma_local_sbom_keeps_workspace(
    tmp: Seq<char>,
    sbom: Seq<char>,
    source: Option<Seq<char>>,
)
    requires
        sbom == tmp + "/bom.json"@,
    ensures
        path_inside(sbom, tmp),
        !spec_should_cleanup(tmp, Some(sbom), source),
{
    reveal_strlit("/bom.json");
    assert(sbom.len() == tmp.len() + 9);
    assert(sbom.subrange(0, tmp.len() as int) =~= tmp);
    assert(sbom[tmp.len() as int] == '/');
}

/// A store locator never lies inside an absolute workspace path, so a
/// registration whose artifacts were both uploaded removes its workspace.
pub proof fn lemma_store_locators_clean_workspace(
    tmp: Seq<char>,
    bucket1: Seq<char>,
    key1: Seq<char>,
    bucket2: Seq<char>,
    key2: Seq<char>,
)
    requires
        tmp.len() > 0,
        tmp[0] == '/',
    ensures
        spec_should_cleanup(
            tmp,
            Some(spec_s3_locator(bucket1, key1)),
            Some(spec_s3_locator(bucket2, key2)),
        ),
{
    reveal_strlit("s3://");
    assert(spec_s3_locator(bucket1, key1)[0] == 's');
    assert(spec_s3_locator(bucket2, key2)[0] == 's');
    lemma_locator_outside(tmp, bucket1, key1);
    lemma_locator_outside(tmp, bucket2, key2);
}

proof fn lemma_locator_outside(tmp: Seq<char>, bucket: Seq<char>, key: Seq<char>)
    requires
        tmp.len() > 0,
        tmp[0] == '/',
    ensures
        !path_inside(spec_s3_locator(bucket, key), tmp),
{
    reveal_strlit("s3://");
    let loc = spec_s3_locator(bucket, key);
    assert(loc[0] == 's');
    if loc == tmp {
        assert(loc[0] == tmp[0]);
        assert(false);
    }
    if loc.len() > tmp.len() && loc.subrange(0, tmp.len() as int) == tmp {
        assert(loc.subrange(0, tmp.len() as int)[0] == loc[0]);
        assert(false);
    }
}

} // verus!
