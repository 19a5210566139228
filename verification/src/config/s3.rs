//! Object-store settings.  Storage is off unless explicitly enabled; bucket
//! and region are only demanded once an upload is attempted.

use vstd::prelude::*;

verus! {

/// Settings of the object store used for artifact uploads.
#[derive(Debug, Clone)]
pub struct S3Config {
    pub enabled: Option<bool>,
    pub bucket: Option<String>,
    pub region: Option<String>,
    pub access_key_id: Option<String>,
    pub secret_access_key: Option<String>,
    pub endpoint: Option<String>,
    pub prefix: Option<String>,
}

impl S3Config {
    /// Whether artifact storage is switched on; absent means off.
    pub fn enabled(&self) -> (r: bool)
        ensures
            r == self.spec_enabled(),
    {
        match self.enabled {
            Some(b) => b,
            None => false,
        }
    }

    /// Spec counterpart of `enabled`.
    pub open spec fn spec_enabled(&self) -> bool {
        match self.enabled {
            Some(b) => b,
            None => false,
        }
    }

    /// The configured bucket, if any.
    pub fn bucket(&self) -> (r: Option<&str>)
        ensures
            r is Some <==> self.bucket is Some,
            r matches Some(s) ==> self.bucket matches Some(b) && s@ == b@,
    {
        match &self.bucket {
            Some(b) => Some(b.as_str()),
            None => None,
        }
    }

    /// The configured region, if any.
    pub fn region(&self) -> (r: Option<&str>)
        ensures
            r is Some <==> self.region is Some,
            r matches Some(s) ==> self.region matches Some(b) && s@ == b@,
    {
        match &self.region {
            Some(b) => Some(b.as_str()),
            None => None,
        }
    }

    /// The configured access key id, if any.
    pub fn access_key_id(&self) -> (r: Option<&str>)
        ensures
            r is Some <==> self.access_key_id is Some,
            r matches Some(s) ==> self.access_key_id matches Some(b) && s@ == b@,
    {
        match &self.access_key_id {
            Some(b) => Some(b.as_str()),
            None => None,
        }
    }

    /// The configured secret key, if any.
    pub fn secret_access_key(&self) -> (r: Option<&str>)
        ensures
            r is Some <==> self.secret_access_key is Some,
            r matches Some(s) ==> self.secret_access_key matches Some(b) && s@ == b@,
    {
        match &self.secret_access_key {
            Some(b) => Some(b.as_str()),
            None => None,
        }
    }

    /// The configured custom endpoint, if any.
    pub fn endpoint(&self) -> (r: Option<&str>)
        ensures
            r is Some <==> self.endpoint is Some,
            r matches Some(s) ==> self.endpoint matches Some(b) && s@ == b@,
    {
        match &self.endpoint {
            Some(b) => Some(b.as_str()),
            None => None,
        }
    }

    /// The configured key prefix, if any.
    pub fn prefix(&self) -> (r: Option<&str>)
        ensures
            r is Some <==> self.prefix is Some,
            r matches Some(s) ==> self.prefix matches Some(b) && s@ == b@,
    {
        match &self.prefix {
            Some(b) => Some(b.as_str()),
            None => None,
        }
    }
}

impl Default for S3Config {
    /// Storage disabled, nothing configured.
    fn default() -> (r: Self)
        ensures
            r.enabled is None,
            r.bucket is None,
            r.region is None,
            r.access_key_id is None,
            r.secret_access_key is None,
            r.endpoint is None,
            r.prefix is None,
    {
        S3Config {
            enabled: None,
            bucket: None,
            region: None,
            access_key_id: None,
            secret_access_key: None,
            endpoint: None,
            prefix: None,
        }
    }
}

} // verus!
