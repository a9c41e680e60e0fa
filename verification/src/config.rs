//! Settings of the service from its environment: defaults for the optional
//! variables and the rule for the required ones.
use vstd::prelude::*;

use crate::text::{blank, is_blank};

verus! {

broadcast use vstd::string::group_string_axioms;

/// The environment variables the service reads, as found (`None` where unset
/// or not Unicode). `APP_ADDR` is parsed by the caller.
#[derive(Debug, Clone, Default)]
pub struct EnvValues {
    pub public_base_url: Option<String>,
    pub sqlite_path: Option<String>,
    pub static_dir: Option<String>,
    pub r2_endpoint: Option<String>,
    pub r2_bucket: Option<String>,
    pub r2_access_key_id: Option<String>,
    pub r2_secret_access_key: Option<String>,
    pub r2_region: Option<String>,
}

/// How to reach the object store.
#[derive(Debug, Clone, PartialEq, Eq)]
pub struct R2Settings {
    pub endpoint: String,
    pub bucket: String,
    pub access_key_id: String,
    pub secret_access_key: String,
    pub region: String,
}

/// The settings of the service, but for the listening address.
#[derive(Debug, Clone, PartialEq, Eq)]
pub struct Settings {
    pub public_base_url: String,
    pub sqlite_path: String,
    pub static_dir: String,
    pub r2: R2Settings,
}

/// A required variable is unset or blank.
#[derive(Debug, Clone, PartialEq, Eq)]
pub struct MissingEnv {
    pub key: String,
}

/// The value of an optional variable, or its default.
pub open spec fn or_default(v: Option<String>, default: Seq<char>) -> Seq<char> {
    match v {
        Some(s) => s@,
        None => default,
    }
}

/// A required variable is present and not blank.
pub open spec fn present(v: Option<String>) -> bool {
    v matches Some(s) && !is_blank(s@)
}

/// The value of an optional variable, or `default`.
fn value_or(v: Option<String>, default: &str) -> (s: String)
    ensures
        s@ == or_default(v, default@),
{
    match v {
        Some(s) => s,
        None => default.to_owned(),
    }
}

/// The text of the listening address: `APP_ADDR`, or `127.0.0.1:3000`.
pub fn app_addr_text(v: Option<String>) -> (s: String)
    ensures
        s@ == or_default(v, "127.0.0.1:3000"@),
{
    value_or(v, "127.0.0.1:3000")
}

/// The value of the required variable `key`, which must be set and not blank.
pub fn required_var(key: &str, v: Option<String>) -> (r: Result<String, MissingEnv>)
    ensures
        present(v) ==> (r matches Ok(s) && v == Some(s)),
        !present(v) ==> (r matches Err(e) && e.key@ == key@),
{
    match v {
        Some(s) => {
            if blank(s.as_str()) {
                Err(MissingEnv { key: key.to_owned() })
            } else {
                Ok(s)
            }
        },
        None => Err(MissingEnv { key: key.to_owned() }),
    }
}

/// The settings from the environment, with the defaults of the optional
/// variables; the first required variable in the order endpoint, bucket,
/// access key id, secret access key that is unset or blank is reported.
pub fn resolve_settings(env: EnvValues) -> (r: Result<Settings, MissingEnv>)
    ensures
        !present(env.r2_endpoint) ==> (r matches Err(e) && e.key@ == "R2_ENDPOINT"@),
        present(env.r2_endpoint) && !present(env.r2_bucket) ==> (r matches Err(e) && e.key@
            == "R2_BUCKET"@),
        present(env.r2_endpoint) && present(env.r2_bucket) && !present(env.r2_access_key_id) ==> (
        r matches Err(e) && e.key@ == "R2_ACCESS_KEY_ID"@),
        present(env.r2_endpoint) && present(env.r2_bucket) && present(env.r2_access_key_id)
            && !present(env.r2_secret_access_key) ==> (r matches Err(e) && e.key@
            == "R2_SECRET_ACCESS_KEY"@),
        r is Ok <==> present(env.r2_endpoint) && present(env.r2_bucket) && present(
            env.r2_access_key_id,
        ) && present(env.r2_secret_access_key),
        r matches Ok(s) ==> {
            &&& s.public_base_url@ == or_default(env.public_base_url, "http://127.0.0.1:3000"@)
            &&& s.sqlite_path@ == or_default(env.sqlite_path, "data/image_upload.db"@)
            &&& s.static_dir@ == or_default(env.static_dir, "static"@)
            &&& Some(s.r2.endpoint) == env.r2_endpoint
            &&& Some(s.r2.bucket) == env.r2_bucket
            &&& Some(s.r2.access_key_id) == env.r2_access_key_id
            &&& Some(s.r2.secret_access_key) == env.r2_secret_access_key
            &&& s.r2.region@ == or_default(env.r2_region, "auto"@)
        },
{
    let public_base_url = value_or(env.public_base_url, "http://127.0.0.1:3000");
    let sqlite_path = value_or(env.sqlite_path, "data/image_upload.db");
    let static_dir = value_or(env.static_dir, "static");
    let endpoint = required_var("R2_ENDPOINT", env.r2_endpoint)?;
    let bucket = required_var("R2_BUCKET", env.r2_bucket)?;
    let access_key_id = required_var("R2_ACCESS_KEY_ID", env.r2_access_key_id)?;
    let secret_access_key = required_var("R2_SECRET_ACCESS_KEY", env.r2_secret_access_key)?;
    let region = value_or(env.r2_region, "auto");
    Ok(
        Settings {
            public_base_url,
            sqlite_path,
            static_dir,
            r2: R2Settings { endpoint, bucket, access_key_id, secret_access_key, region },
        },
    )
}

impl MissingEnv {
    /// The message of this error.
    pub fn message(&self) -> (m: String)
        ensures
            m@ == "missing required environment variable "@ + self.key@,
    {
        let mut m = String::new();
        m.append("missing required environment variable ");
        m.append(self.key.as_str());
        m
    }
}

} // verus!
