//! Graph-store settings.  The graph mirror is optional; uri, username and
//! password become mandatory only once it is enabled.

use vstd::prelude::*;
use vstd::string::StringExecFns;

use crate::errors::RegisterError;

verus! {

/// Settings of the graph store that mirrors the dependency graph.
#[derive(Debug, Clone)]
pub struct Neo4jConfig {
    pub enabled: Option<bool>,
    pub uri: Option<String>,
    pub username: Option<String>,
    pub password: Option<String>,
    pub database: Option<String>,
}

/// Everything needed to open a graph connection, once validated.
#[derive(Debug, Clone)]
pub struct GraphConnection {
    pub uri: String,
    pub username: String,
    pub password: String,
    pub database: Option<String>,
}

impl Neo4jConfig {
    /// Whether the graph mirror is switched on; absent means off.
    pub fn enabled(&self) -> (r: bool)
        ensures
            r == self.spec_enabled(),
    {
        match self.enabled {
            Some(b) => b,
            None => false,
        }
    }

    /// Spec counterpart of `enabled`.
    pub open spec fn spec_enabled(&self) -> bool {
        match self.enabled {
            Some(b) => b,
            None => false,
        }
    }

    /// The configured connection uri, if any.
    pub fn uri(&self) -> (r: Option<&str>)
        ensures
            r is Some <==> self.uri is Some,
            r matches Some(s) ==> self.uri matches Some(b) && s@ == b@,
    {
        match &self.uri {
            Some(b) => Some(b.as_str()),
            None => None,
        }
    }

    /// The configured user name, if any.
    pub fn username(&self) -> (r: Option<&str>)
        ensures
            r is Some <==> self.username is Some,
            r matches Some(s) ==> self.username matches Some(b) && s@ == b@,
    {
        match &self.username {
            Some(b) => Some(b.as_str()),
            None => None,
        }
    }

    /// The configured password, if any.
    pub fn password(&self) -> (r: Option<&str>)
        ensures
            r is Some <==> self.password is Some,
            r matches Some(s) ==> self.password matches Some(b) && s@ == b@,
    {
        match &self.password {
            Some(b) => Some(b.as_str()),
            None => None,
        }
    }

    /// The configured database name, if any.
    pub fn database(&self) -> (r: Option<&str>)
        ensures
            r is Some <==> self.database is Some,
            r matches Some(s) ==> self.database matches Some(b) && s@ == b@,
    {
        match &self.database {
            Some(b) => Some(b.as_str()),
            None => None,
        }
    }

    /// The connection parameters demanded once the mirror is enabled:
    /// `None` when the mirror is off, the validated parameters when all three
    /// required settings are present, and otherwise the configuration error
    /// naming the first missing one.
    pub fn connection(&self) -> (r: Result<Option<GraphConnection>, RegisterError>)
        ensures
            !self.spec_enabled() ==> (r matches Ok(c) && c is None),
            self.spec_enabled() && self.uri is None ==> r is Err,
            self.spec_enabled() && self.uri is Some && self.username is None ==> r is Err,
            self.spec_enabled() && self.uri is Some && self.username is Some && self.password
                is None ==> r is Err,
            r is Err ==> (r matches Err(e) && e is Config),
            self.spec_enabled() && self.uri is Some && self.username is Some && self.password
                is Some ==> (r matches Ok(c) && c matches Some(g) && g.uri == self.uri->Some_0
                && g.username == self.username->Some_0 && g.password == self.password->Some_0
                && g.database == self.database),
    {
        if !self.enabled() {
            return Ok(None);
        }
        let uri = match &self.uri {
            Some(u) => u.clone(),
            None => {
                return Err(
                    RegisterError::Config(
                        String::from_str("neo4j.uri is required when neo4j.enabled=true"),
                    ),
                );
            },
        };
        let username = match &self.username {
            Some(u) => u.clone(),
            None => {
                return Err(
                    RegisterError::Config(
                        String::from_str("neo4j.username is required when neo4j.enabled=true"),
                    ),
                );
            },
        };
        let password = match &self.password {
            Some(u) => u.clone(),
            None => {
                return Err(
                    RegisterError::Config(
                        String::from_str("neo4j.password is required when neo4j.enabled=true"),
                    ),
                );
            },
        };
        let database = match &self.database {
            Some(d) => Some(d.clone()),
            None => None,
        };
        Ok(Some(GraphConnection { uri, username, password, database }))
    }
}

} // verus!
