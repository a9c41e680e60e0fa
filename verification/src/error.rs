//! Errors that the HTTP API answers with: a status code, a stable code word
//! and a message for people.
use vstd::prelude::*;

verus! {

/// An error answer of the API.
#[derive(Debug)]
pub struct ApiError {
    /// The HTTP status code.
    pub status: u16,
    /// The machine-readable error code.
    pub code: String,
    /// The human-readable message.
    pub message: String,
}

/// The answer whose status, code and message are the given ones.
pub open spec fn api_error_is(e: ApiError, status: u16, code: Seq<char>, message: Seq<char>) -> bool {
    e.status == status && e.code@ == code && e.message@ == message
}

impl ApiError {
    fn new(status: u16, code: &str, message: &str) -> (e: ApiError)
        ensures
            api_error_is(e, status, code@, message@),
    {
        ApiError { status, code: code.to_owned(), message: message.to_owned() }
    }

    /// A request parameter is malformed or out of range (400).
    pub fn invalid_parameter(message: &str) -> (e: ApiError)
        ensures
            api_error_is(e, 400, "INVALID_PARAMETER"@, message@),
    {
        Self::new(400, "INVALID_PARAMETER", message)
    }

    /// The multipart field `file` is absent (400).
    pub fn missing_file() -> (e: ApiError)
        ensures
            api_error_is(e, 400, "MISSING_FILE"@, "multipart field `file` is required"@),
    {
        Self::new(400, "MISSING_FILE", "multipart field `file` is required")
    }

    /// The upload exceeds the size limit (413).
    pub fn file_too_large() -> (e: ApiError)
        ensures
            api_error_is(e, 413, "FILE_TOO_LARGE"@, "uploaded file exceeds the 10 MB limit"@),
    {
        Self::new(413, "FILE_TOO_LARGE", "uploaded file exceeds the 10 MB limit")
    }

    /// The upload is not JPEG, PNG or WebP (415).
    pub fn unsupported_media_type() -> (e: ApiError)
        ensures
            api_error_is(
                e,
                415,
                "UNSUPPORTED_MEDIA_TYPE"@,
                "supported image formats are JPEG, PNG, and WebP"@,
            ),
    {
        Self::new(
            415,
            "UNSUPPORTED_MEDIA_TYPE",
            "supported image formats are JPEG, PNG, and WebP",
        )
    }

    /// The image data cannot be decoded (400).
    pub fn invalid_image() -> (e: ApiError)
        ensures
            api_error_is(e, 400, "INVALID_IMAGE"@, "failed to decode image data"@),
    {
        Self::new(400, "INVALID_IMAGE", "failed to decode image data")
    }

    /// Something failed on the server's side (500).
    pub fn internal_error() -> (e: ApiError)
        ensures
            api_error_is(e, 500, "INTERNAL_ERROR"@, "internal server error"@),
    {
        Self::new(500, "INTERNAL_ERROR", "internal server error")
    }
}

} // verus!
