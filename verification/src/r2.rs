//! Errors of the object store (Cloudflare R2) and their messages.
use vstd::prelude::*;

verus! {

broadcast use vstd::string::group_string_axioms;

/// The object store client could not be configured.
#[derive(Debug, Clone, Copy, PartialEq, Eq)]
pub struct R2ConfigError;

/// A request to the object store failed.
#[derive(Debug, Clone, PartialEq, Eq)]
pub enum R2Error {
    PutObject(String),
    GetObject(String),
    ReadObjectBody(String),
    DeleteObject(String),
    ObjectNotFound,
}

/// The message of an `R2Error`.
pub open spec fn r2_error_message(e: R2Error) -> Seq<char> {
    match e {
        R2Error::PutObject(err) => "failed to upload object to R2: "@ + err@,
        R2Error::GetObject(err) => "failed to fetch object from R2: "@ + err@,
        R2Error::ReadObjectBody(err) => "failed to read object body from R2: "@ + err@,
        R2Error::DeleteObject(err) => "failed to delete object from R2: "@ + err@,
        R2Error::ObjectNotFound => "object was not found in R2"@,
    }
}

impl R2ConfigError {
    /// The message of this error.
    pub fn message(&self) -> (m: String)
        ensures
            m@ == "failed to configure Cloudflare R2 client"@,
    {
        "failed to configure Cloudflare R2 client".to_owned()
    }
}

impl R2Error {
    /// The message of this error.
    pub fn message(&self) -> (m: String)
        ensures
            m@ == r2_error_message(*self),
    {
        let mut m = String::new();
        match self {
            R2Error::PutObject(err) => {
                m.append("failed to upload object to R2: ");
                m.append(err.as_str());
            },
            R2Error::GetObject(err) => {
                m.append("failed to fetch object from R2: ");
                m.append(err.as_str());
            },
            R2Error::ReadObjectBody(err) => {
                m.append("failed to read object body from R2: ");
                m.append(err.as_str());
            },
            R2Error::DeleteObject(err) => {
                m.append("failed to delete object from R2: ");
                m.append(err.as_str());
            },
            R2Error::ObjectNotFound => {
                m.append("object was not found in R2");
            },
        }
        m
    }
}

/// The error for a failed `GetObject` request: the missing-key answer of the
/// store means the object is not there; any other failure keeps its text.
pub fn get_object_failure(is_no_such_key: bool, error_text: String) -> (e: R2Error)
    ensures
        is_no_such_key ==> e == R2Error::ObjectNotFound,
        !is_no_such_key ==> e == R2Error::GetObject(error_text),
{
    if is_no_such_key {
        R2Error::ObjectNotFound
    } else {
        R2Error::GetObject(error_text)
    }
}

} // verus!
