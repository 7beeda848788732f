//! Plain data model of the client: endpoint configurations, listing results,
//! and the error kinds that the transfer engine and its callers report.

use vstd::prelude::*;

verus! {

/// Connection settings for one storage endpoint. Immutable once built; the
/// session registry caches at most one live client per `id`.
pub struct S3Config {
    pub id: String,
    pub name: String,
    pub access_key_id: String,
    pub secret_access_key: String,
    pub region: Option<String>,
    pub endpoint: Option<String>,
    pub session_token: Option<String>,
    pub bucket: Option<String>,
}

impl Clone for S3Config {
    fn clone(&self) -> (r: Self)
        ensures
            r == *self,
    {
        S3Config {
            id: self.id.clone(),
            name: self.name.clone(),
            access_key_id: self.access_key_id.clone(),
            secret_access_key: self.secret_access_key.clone(),
            region: clone_opt_string(&self.region),
            endpoint: clone_opt_string(&self.endpoint),
            session_token: clone_opt_string(&self.session_token),
            bucket: clone_opt_string(&self.bucket),
        }
    }
}

/// Clones an optional string, keeping its value exactly.
pub fn clone_opt_string(s: &Option<String>) -> (r: Option<String>)
    ensures
        r == *s,
{
    match s {
        Some(v) => Some(v.clone()),
        None => None,
    }
}

/// Summary of one bucket, as a listing reports it.
pub struct BucketInfo {
    pub name: String,
    pub creation_date: String,
    pub region: Option<String>,
}

/// Metadata of one stored object.
pub struct ObjectMetadata {
    pub key: String,
    pub last_modified: String,
    pub size: i64,
    pub etag: String,
    pub storage_class: String,
    pub content_type: Option<String>,
    pub is_folder: bool,
}

/// One page of an object listing.
pub struct ListObjectsResult {
    pub objects: Vec<ObjectMetadata>,
    pub common_prefixes: Vec<String>,
    pub is_truncated: bool,
    pub next_continuation_token: Option<String>,
}

/// The error kinds the library reports. Each carries a human-readable cause.
#[derive(Debug)]
pub enum S3Error {
    /// The remote endpoint rejected or failed a request.
    AwsError(String),
    /// The supplied configuration is unusable.
    ConfigError(String),
    /// A local read or write failed.
    IoError(String),
    /// A value could not be encoded or decoded.
    SerdeError(String),
    /// The named configuration or object does not exist.
    NotFound(String),
    /// The endpoint refused access.
    PermissionDenied(String),
    /// Any other failure.
    Unknown(String),
}

impl Clone for S3Error {
    fn clone(&self) -> (r: Self)
        ensures
            r == *self,
    {
        match self {
            S3Error::AwsError(m) => S3Error::AwsError(m.clone()),
            S3Error::ConfigError(m) => S3Error::ConfigError(m.clone()),
            S3Error::IoError(m) => S3Error::IoError(m.clone()),
            S3Error::SerdeError(m) => S3Error::SerdeError(m.clone()),
            S3Error::NotFound(m) => S3Error::NotFound(m.clone()),
            S3Error::PermissionDenied(m) => S3Error::PermissionDenied(m.clone()),
            S3Error::Unknown(m) => S3Error::Unknown(m.clone()),
        }
    }
}

impl S3Error {
    /// The human-readable cause carried by this error.
    pub fn message(&self) -> (r: &String)
        ensures
            *r == self.spec_message(),
    {
        match self {
            S3Error::AwsError(m) => m,
            S3Error::ConfigError(m) => m,
            S3Error::IoError(m) => m,
            S3Error::SerdeError(m) => m,
            S3Error::NotFound(m) => m,
            S3Error::PermissionDenied(m) => m,
            S3Error::Unknown(m) => m,
        }
    }

    /// The cause string of an error, whichever kind it is.
    pub open spec fn spec_message(self) -> String {
        match self {
            S3Error::AwsError(m) => m,
            S3Error::ConfigError(m) => m,
            S3Error::IoError(m) => m,
            S3Error::SerdeError(m) => m,
            S3Error::NotFound(m) => m,
            S3Error::PermissionDenied(m) => m,
            S3Error::Unknown(m) => m,
        }
    }
}

} // verus!
