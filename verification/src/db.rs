//! The rows of the `images` table, as the service reads and writes them.
use vstd::prelude::*;

verus! {

/// A row to insert after an upload has been stored.
#[derive(Clone, Debug)]
pub struct NewImageRecord {
    pub id: String,
    pub object_key: String,
    pub content_type: String,
    pub width: i64,
    pub height: i64,
    pub size_bytes: i64,
    pub created_at: String,
    pub expires_at: String,
}

/// A stored row; `deleted_at` is set once cleanup has removed the object.
#[derive(Clone, Debug, PartialEq, Eq)]
pub struct ImageRecord {
    pub id: String,
    pub object_key: String,
    pub content_type: String,
    pub width: i64,
    pub height: i64,
    pub size_bytes: i64,
    pub created_at: String,
    pub expires_at: String,
    pub deleted_at: Option<String>,
}

/// An expired, not yet deleted image that cleanup must remove.
#[derive(Clone, Debug, PartialEq, Eq)]
pub struct CleanupCandidate {
    pub id: String,
    pub object_key: String,
}

} // verus!
