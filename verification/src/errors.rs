//! Error classification for the registration pipeline.
//!
//! Every abort of a registration is reported as exactly one of these kinds,
//! so a caller can tell which precondition failed.  Graph-sync failures are
//! deliberately absent: they are recorded and never surfaced.

use vstd::prelude::*;

verus! {

/// One coherent error for an aborted registration.
#[derive(Debug, Clone, PartialEq, Eq)]
pub enum RegisterError {
    /// A required setting is missing (e.g. storage enabled without a bucket,
    /// or no usable SBOM service endpoint for the detected ecosystem).
    Config(String),
    /// The repository could not be cloned.
    CloneFailed(String),
    /// The SBOM service could not be reached or answered non-2xx.
    SbomTransport(String),
    /// The SBOM document is malformed.
    SbomParse,
    /// A business rule was violated (duplicate project name, invalid
    /// package URL).
    Biz(String),
    /// The relational store failed (constraint or connection failure).
    Persistence(String),
    /// The source archive could not be produced.
    ArchiveIo(String),
    /// An artifact upload to object storage failed.
    Upload(String),
    /// The per-registration workspace could not be created.
    WorkspaceIo(String),
}

impl RegisterError {
    /// The HTTP status under which this error is reported: business-rule
    /// violations are answered in-band with a 200 envelope, everything else
    /// is a server-side failure.
    pub fn status_code(&self) -> (code: u16)
        ensures
            code == (if self is Biz {
                200u16
            } else {
                500u16
            }),
    {
        match self {
            RegisterError::Biz(_) => 200,
            _ => 500,
        }
    }
}

} // verus!
