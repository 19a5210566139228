//! Application settings, grouped by subsystem.
//!
//! Loading the settings from files or the environment is the embedding
//! application's job; this crate holds the typed values and their defaults.

pub mod auth;
pub mod database;
pub mod jwt;
pub mod languages;
pub mod logger;
pub mod neo4j;
pub mod s3;
pub mod server;

use vstd::prelude::*;

pub use auth::AuthConfig;
pub use database::DatabaseConfig;
pub use jwt::JwtConfig;
pub use languages::LanguagesConfig;
pub use logger::LoggerConfig;
pub use neo4j::Neo4jConfig;
pub use s3::S3Config;
pub use server::ServerConfig;

verus! {

/// All settings of the application.
#[derive(Debug, Clone)]
pub struct AppConfig {
    pub server: ServerConfig,
    pub database: DatabaseConfig,
    pub jwt: JwtConfig,
    pub auth: AuthConfig,
    pub s3: S3Config,
    pub neo4j: Neo4jConfig,
    pub languages: LanguagesConfig,
    pub logger: LoggerConfig,
}

impl AppConfig {
    /// The server settings.
    pub fn server(&self) -> (r: &ServerConfig)
        ensures
            *r == self.server,
    {
        &self.server
    }

    /// The relational-store settings.
    pub fn database(&self) -> (r: &DatabaseConfig)
        ensures
            *r == self.database,
    {
        &self.database
    }

    /// The token settings.
    pub fn jwt(&self) -> (r: &JwtConfig)
        ensures
            *r == self.jwt,
    {
        &self.jwt
    }

    /// The authentication settings.
    pub fn auth(&self) -> (r: &AuthConfig)
        ensures
            *r == self.auth,
    {
        &self.auth
    }

    /// The object-store settings.
    pub fn s3(&self) -> (r: &S3Config)
        ensures
            *r == self.s3,
    {
        &self.s3
    }

    /// The graph-store settings.
    pub fn neo4j(&self) -> (r: &Neo4jConfig)
        ensures
            *r == self.neo4j,
    {
        &self.neo4j
    }

    /// The SBOM-service settings.
    pub fn languages(&self) -> (r: &LanguagesConfig)
        ensures
            *r == self.languages,
    {
        &self.languages
    }

    /// The logging settings.
    pub fn logger(&self) -> (r: &LoggerConfig)
        ensures
            *r == self.logger,
    {
        &self.logger
    }
}

} // verus!
