//! Verified core of a project-registration service for dependency tracking.
//!
//! Registering a project clones its repository, classifies the packaging
//! ecosystem, obtains a generated software bill of materials (SBOM), optionally
//! archives and uploads artifacts to object storage, persists normalized
//! project/scan/package/dependency records, and best-effort mirrors the
//! dependency graph into a graph store.
//!
//! This crate holds the decision logic of that pipeline: the registration
//! state machine, ecosystem detection, SBOM request and artifact-path
//! policies, the relational-store rules (name uniqueness, package
//! deduplication), and the graph-sync statement builder.  All side effects
//! (filesystem, network, databases) are performed by the embedding
//! application, which drives the state machine with events.

pub mod auth;
pub mod config;
pub mod ecosystem;
pub mod errors;
pub mod graph;
pub mod pipeline;
pub mod purl;
pub mod response;
pub mod sbom;
pub mod store;
pub mod strutil;
