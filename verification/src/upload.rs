//! The rules of `POST /api/images`: query limits, what counts as the file,
//! error answers, object keys, public URLs, expiry and the stored record.
use vstd::prelude::*;

use crate::db::NewImageRecord;
use crate::error::{api_error_is, ApiError};
use crate::image_processing::{ImageProcessingError, ProcessedImage};
use crate::text::{
    chars_of, decimal, push_signed_zero_padded, push_zero_padded, signed_zero_padded,
    string_of, trim_end_char, trim_trailing, zero_padded, same_text,
};
use crate::timestamp::{
    rfc3339_instant, rfc3339_utc_text, utc_calendar_date, Timestamp, NANOS_PER_DAY, NANOS_PER_HOUR,
    representable,
};

verus! {

broadcast use vstd::string::group_string_axioms;

/// Largest accepted file, in bytes.
pub const MAX_FILE_BYTES: usize = 10_000_000usize;

/// Largest accepted multipart body, in bytes.
pub const MAX_MULTIPART_BODY_BYTES: usize = 12_000_000usize;

/// Box side used when the query does not give one.
pub const DEFAULT_MAX_DIMENSION: u32 = 2048u32;

/// Largest box side a query may ask for.
pub const MAX_ALLOWED_DIMENSION: u32 = 4096u32;

/// Hours an upload stays available.
pub const EXPIRATION_HOURS: u32 = 12u32;

/// The query string of an upload.
#[derive(Debug, Clone, Copy, PartialEq, Eq)]
pub struct UploadQuery {
    pub max_width: Option<u32>,
    pub max_height: Option<u32>,
}

/// The query string could not be read as `UploadQuery`.
#[derive(Debug, Clone, Copy, PartialEq, Eq)]
pub struct MalformedQuery;

/// The box an upload is shrunk into.
#[derive(Debug, Clone, Copy, PartialEq, Eq)]
pub struct ResolvedUploadQuery {
    pub max_width: u32,
    pub max_height: u32,
}

/// The answer to a successful upload.
#[derive(Debug, Clone, PartialEq, Eq)]
pub struct UploadImageResponse {
    pub id: String,
    pub url: String,
    pub expires_at: String,
    pub width: u32,
    pub height: u32,
    pub content_type: String,
    pub size_bytes: u64,
}

/// What is fixed before the image is stored: its id, the clock reading, the
/// expiry and the storage key.
pub struct UploadStart {
    pub id: String,
    pub created_at: Timestamp,
    pub expires_at: Timestamp,
    pub object_key: String,
}

// ---------------------------------------------------------------------------
// Specifications
// ---------------------------------------------------------------------------

/// A side from the query, or the default.
pub open spec fn dimension_or_default(v: Option<u32>) -> u32 {
    match v {
        Some(d) => d,
        None => DEFAULT_MAX_DIMENSION,
    }
}

/// A side that a query may ask for.
pub open spec fn dimension_allowed(d: u32) -> bool {
    1 <= d <= MAX_ALLOWED_DIMENSION
}

/// The storage key `images/YYYY/MM/DD/{id}.webp` for the calendar date `ymd`.
pub open spec fn object_key_text(id: Seq<char>, ymd: (int, int, int)) -> Seq<char> {
    "images/"@ + signed_zero_padded(ymd.0, 4) + "/"@ + zero_padded(decimal(ymd.1 as nat), 2) + "/"@
        + zero_padded(decimal(ymd.2 as nat), 2) + "/"@ + id + ".webp"@
}

/// The public URL of image `id`: the base URL without trailing slashes,
/// then `/i/` and the id.
pub open spec fn image_url_text(base_url: Seq<char>, id: Seq<char>) -> Seq<char> {
    trim_trailing(base_url, '/') + "/i/"@ + id
}

/// A character of the Crockford base-32 alphabet that ULIDs are written in.
pub open spec fn crockford_char(c: char) -> bool {
    ('0' <= c <= '9') || ('A' <= c <= 'Z' && c != 'I' && c != 'L' && c != 'O' && c != 'U')
}

/// An upload is due to expire this long after it was made.
pub open spec fn upload_lifetime() -> int {
    EXPIRATION_HOURS * NANOS_PER_HOUR
}

// ---------------------------------------------------------------------------
// Calls into `ulid`
// ---------------------------------------------------------------------------

/// `ulid::Ulid::new()` written with `to_string()`. Claimed: 26 characters of
/// the Crockford alphabet (`base32::encode_to_array`). The value itself
/// depends on the clock and on chance; nothing more is claimed.
#[verifier::external_body]
fn new_ulid_text() -> (s: String)
    ensures
        s@.len() == 26,
        forall|i: int| 0 <= i < 26 ==> crockford_char(#[trigger] s@[i]),
{
    ulid::Ulid::new().to_string()
}

// ---------------------------------------------------------------------------
// Query and request body
// ---------------------------------------------------------------------------

/// The box for an upload, or the error answer for a bad query.
pub fn resolve_query(query: Result<UploadQuery, MalformedQuery>) -> (r: Result<
    ResolvedUploadQuery,
    ApiError,
>)
    ensures
        query is Err ==> (r matches Err(e) && api_error_is(
            e,
            400,
            "INVALID_PARAMETER"@,
            "max_width and max_height must be integers between 1 and 4096"@,
        )),
        query matches Ok(q) ==> {
            let w = dimension_or_default(q.max_width);
            let h = dimension_or_default(q.max_height);
            if dimension_allowed(w) && dimension_allowed(h) {
                r == Ok::<ResolvedUploadQuery, ApiError>(
                    ResolvedUploadQuery { max_width: w, max_height: h },
                )
            } else {
                (r matches Err(e) && api_error_is(
                    e,
                    400,
                    "INVALID_PARAMETER"@,
                    "max_width and max_height must be between 1 and 4096"@,
                ))
            }
        },
{
    let query = match query {
        Ok(q) => q,
        Err(_) => {
            return Err(
                ApiError::invalid_parameter(
                    "max_width and max_height must be integers between 1 and 4096",
                ),
            );
        },
    };
    let max_width = match query.max_width {
        Some(w) => w,
        None => DEFAULT_MAX_DIMENSION,
    };
    let max_height = match query.max_height {
        Some(h) => h,
        None => DEFAULT_MAX_DIMENSION,
    };
    if !(1 <= max_width && max_width <= MAX_ALLOWED_DIMENSION) || !(1 <= max_height && max_height
        <= MAX_ALLOWED_DIMENSION) {
        return Err(ApiError::invalid_parameter("max_width and max_height must be between 1 and 4096"));
    }
    Ok(ResolvedUploadQuery { max_width, max_height })
}

/// Whether a multipart field with this name is the uploaded file.
pub fn is_file_field(name: Option<&str>) -> (b: bool)
    ensures
        b == (name matches Some(n) && n@ == "file"@),
{
    match name {
        Some(n) => same_text(n, "file"),
        None => false,
    }
}

/// What the reader of a multipart body reports next.
pub enum MultipartEvent<'a> {
    /// A field begins; its name, where it has one.
    Field(Option<&'a str>),
    /// The body holds no more fields.
    End,
}

/// What to do next while looking for the file among the multipart fields.
#[derive(Debug)]
pub enum MultipartAction {
    /// Pass over this field and read the next one.
    SkipField,
    /// Read this field's bytes: it is the file.
    ReadFile,
    /// Stop and answer with this error.
    Fail(ApiError),
}

/// One step of the search for the file field: the first field named
/// `file` is read, every other field is passed over, and a body that ends
/// before one is found is answered with `MISSING_FILE`.
pub fn next_multipart_action(event: &MultipartEvent) -> (a: MultipartAction)
    ensures
        match event {
            MultipartEvent::Field(name) => if name matches Some(n) && n@ == "file"@ {
                a is ReadFile
            } else {
                a is SkipField
            },
            MultipartEvent::End => a matches MultipartAction::Fail(e) && api_error_is(
                e,
                400,
                "MISSING_FILE"@,
                "multipart field `file` is required"@,
            ),
        },
{
    match event {
        MultipartEvent::Field(name) => {
            if is_file_field(*name) {
                MultipartAction::ReadFile
            } else {
                MultipartAction::SkipField
            }
        },
        MultipartEvent::End => MultipartAction::Fail(ApiError::missing_file()),
    }
}

/// The bytes of the file field, or the error answer if they are too many.
pub fn accept_file_bytes(bytes: Vec<u8>) -> (r: Result<Vec<u8>, ApiError>)
    ensures
        bytes.len() > MAX_FILE_BYTES ==> (r matches Err(e) && api_error_is(
            e,
            413,
            "FILE_TOO_LARGE"@,
            "uploaded file exceeds the 10 MB limit"@,
        )),
        bytes.len() <= MAX_FILE_BYTES ==> (r matches Ok(b) && b@ == bytes@),
{
    if bytes.len() > MAX_FILE_BYTES {
        return Err(ApiError::file_too_large());
    }
    Ok(bytes)
}

/// The error answer for a multipart stream that failed with HTTP status
/// `status`.
pub fn map_multipart_status(status: u16) -> (e: ApiError)
    ensures
        status == 413 ==> api_error_is(
            e,
            413,
            "FILE_TOO_LARGE"@,
            "uploaded file exceeds the 10 MB limit"@,
        ),
        status == 400 ==> api_error_is(
            e,
            400,
            "INVALID_PARAMETER"@,
            "invalid multipart/form-data request"@,
        ),
        status != 413 && status != 400 ==> api_error_is(
            e,
            500,
            "INTERNAL_ERROR"@,
            "internal server error"@,
        ),
{
    if status == 413 {
        ApiError::file_too_large()
    } else if status == 400 {
        ApiError::invalid_parameter("invalid multipart/form-data request")
    } else {
        ApiError::internal_error()
    }
}

/// The error answer for an image that could not be processed.
pub fn map_image_processing_error(err: ImageProcessingError) -> (e: ApiError)
    ensures
        err == ImageProcessingError::UnsupportedFormat ==> api_error_is(
            e,
            415,
            "UNSUPPORTED_MEDIA_TYPE"@,
            "supported image formats are JPEG, PNG, and WebP"@,
        ),
        err == ImageProcessingError::InvalidImage ==> api_error_is(
            e,
            400,
            "INVALID_IMAGE"@,
            "failed to decode image data"@,
        ),
        err == ImageProcessingError::EncodeWebp ==> api_error_is(
            e,
            500,
            "INTERNAL_ERROR"@,
            "internal server error"@,
        ),
{
    match err {
        ImageProcessingError::UnsupportedFormat => ApiError::unsupported_media_type(),
        ImageProcessingError::InvalidImage => ApiError::invalid_image(),
        ImageProcessingError::EncodeWebp => ApiError::internal_error(),
    }
}

// ---------------------------------------------------------------------------
// Names and addresses
// ---------------------------------------------------------------------------

/// The storage key of image `id` uploaded at `timestamp`:
/// `images/YYYY/MM/DD/{id}.webp` with the UTC date.
pub fn build_object_key(id: &str, timestamp: &Timestamp) -> (key: String)
    ensures
        key@ == object_key_text(id@, utc_calendar_date(timestamp@)),
{
    let (year, month, day) = timestamp.calendar_date();
    format_object_key(id, year, month, day)
}

/// The storage key `images/YYYY/MM/DD/{id}.webp` for image `id` and the
/// given date; the year is written with at least four digits, month and day
/// with two.
pub fn format_object_key(id: &str, year: i32, month: u8, day: u8) -> (key: String)
    ensures
        key@ == object_key_text(id@, (year as int, month as int, day as int)),
{
    let mut key = String::new();
    key.append("images/");
    push_signed_zero_padded(&mut key, year, 4);
    key.append("/");
    push_zero_padded(&mut key, month as u64, 2);
    key.append("/");
    push_zero_padded(&mut key, day as u64, 2);
    key.append("/");
    key.append(id);
    key.append(".webp");
    key
}

/// The public URL of image `id` under `base_url`.
pub fn image_url(base_url: &str, id: &str) -> (url: String)
    ensures
        url@ == image_url_text(base_url@, id@),
{
    let base = chars_of(base_url);
    let trimmed = trim_end_char(&base, '/');
    let mut url = string_of(&trimmed);
    url.append("/i/");
    url.append(id);
    url
}

/// The key depends on the instant only through its UTC day: two instants of
/// the same day give the same key.
pub proof fn lemma_object_key_ignores_time_of_day(id: Seq<char>, t1: int, t2: int)
    requires
        t1 / (NANOS_PER_DAY as int) == t2 / (NANOS_PER_DAY as int),
    ensures
        object_key_text(id, utc_calendar_date(t1)) == object_key_text(id, utc_calendar_date(t2)),
{
}

/// Images with different ids get different keys on the same date.
pub proof fn lemma_object_keys_differ_by_id(id1: Seq<char>, id2: Seq<char>, ymd: (int, int, int))
    requires
        id1 != id2,
    ensures
        object_key_text(id1, ymd) != object_key_text(id2, ymd),
{
    let prefix = "images/"@ + signed_zero_padded(ymd.0, 4) + "/"@ + zero_padded(decimal(ymd.1 as nat), 2)
        + "/"@ + zero_padded(decimal(ymd.2 as nat), 2) + "/"@;
    let k1 = object_key_text(id1, ymd);
    let k2 = object_key_text(id2, ymd);
    assert(k1 =~= prefix + id1 + ".webp"@);
    assert(k2 =~= prefix + id2 + ".webp"@);
    if k1 == k2 {
        assert(k1.len() == k2.len());
        assert(id1.len() == id2.len());
        assert(k1.subrange(prefix.len() as int, (prefix.len() + id1.len()) as int) =~= id1);
        assert(k2.subrange(prefix.len() as int, (prefix.len() + id2.len()) as int) =~= id2);
    }
}

/// Trailing slashes of the base URL do not change an image's URL.
pub proof fn lemma_image_url_ignores_trailing_slash(base_url: Seq<char>, id: Seq<char>)
    ensures
        image_url_text(base_url.push('/'), id) == image_url_text(base_url, id),
{
    assert(base_url.push('/').drop_last() =~= base_url);
}

// ---------------------------------------------------------------------------
// The two halves of an upload around storing the object
// ---------------------------------------------------------------------------

/// Fixes an upload made at `now` under `id`: it expires after
/// `EXPIRATION_HOURS` and is stored under its dated key. Fails, with the
/// internal error answer, only where the expiry is beyond the last
/// representable instant.
pub fn begin_upload_at(id: String, now: Timestamp) -> (r: Result<UploadStart, ApiError>)
    ensures
        r is Ok <==> representable(now@ + upload_lifetime()),
        r matches Ok(s) ==> {
            &&& s.id@ == id@
            &&& s.created_at == now
            &&& s.expires_at@ == now@ + upload_lifetime()
            &&& s.object_key@ == object_key_text(id@, utc_calendar_date(now@))
        },
        r matches Err(e) ==> api_error_is(e, 500, "INTERNAL_ERROR"@, "internal server error"@),
{
    let expires_at = match now.checked_add_hours(EXPIRATION_HOURS) {
        Some(t) => t,
        None => return Err(ApiError::internal_error()),
    };
    let object_key = build_object_key(id.as_str(), &now);
    Ok(UploadStart { id, created_at: now, expires_at, object_key })
}

/// Fixes an upload made now under a fresh ULID: its creation time is the
/// clock reading taken for it, and it expires `EXPIRATION_HOURS` later.
pub fn begin_upload() -> (r: Result<UploadStart, ApiError>)
    ensures
        r matches Ok(s) ==> {
            &&& s.created_at.is_clock_reading()
            &&& s.id@.len() == 26
            &&& forall|i: int| 0 <= i < 26 ==> crockford_char(#[trigger] s.id@[i])
            &&& s.expires_at@ == s.created_at@ + upload_lifetime()
            &&& s.object_key@ == object_key_text(s.id@, utc_calendar_date(s.created_at@))
        },
        r matches Err(e) ==> api_error_is(e, 500, "INTERNAL_ERROR"@, "internal server error"@),
{
    let now = Timestamp::now();
    let id = new_ulid_text();
    begin_upload_at(id, now)
}

/// The stored record and the answer for an upload whose object has been
/// stored; fails with the internal error answer where a time cannot be
/// written in RFC 3339.
pub fn complete_upload(start: &UploadStart, processed: &ProcessedImage, public_base_url: &str) -> (r:
    Result<(NewImageRecord, UploadImageResponse), ApiError>)
    requires
        processed.bytes.len() <= i64::MAX,
    ensures
        r is Ok <==> rfc3339_utc_text(start.created_at@) is Some && rfc3339_utc_text(
            start.expires_at@,
        ) is Some,
        r matches Err(e) ==> api_error_is(e, 500, "INTERNAL_ERROR"@, "internal server error"@),
        r matches Ok((record, response)) ==> {
            &&& record.id@ == start.id@
            &&& record.object_key@ == start.object_key@
            &&& record.content_type@ == "image/webp"@
            &&& record.width == processed.width as i64
            &&& record.height == processed.height as i64
            &&& record.size_bytes == processed.bytes.len() as i64
            &&& rfc3339_utc_text(start.created_at@) == Some(record.created_at@)
            &&& rfc3339_utc_text(start.expires_at@) == Some(record.expires_at@)
            &&& rfc3339_instant(record.expires_at@) == Some(start.expires_at@)
            &&& response.id@ == start.id@
            &&& response.url@ == image_url_text(public_base_url@, start.id@)
            &&& response.expires_at@ == record.expires_at@
            &&& response.width == processed.width
            &&& response.height == processed.height
            &&& response.content_type@ == "image/webp"@
            &&& response.size_bytes == processed.bytes.len() as u64
        },
{
    let created_at = match start.created_at.format_rfc3339() {
        Ok(s) => s,
        Err(_) => return Err(ApiError::internal_error()),
    };
    let expires_at = match start.expires_at.format_rfc3339() {
        Ok(s) => s,
        Err(_) => return Err(ApiError::internal_error()),
    };
    let size = processed.bytes.len();
    let record = NewImageRecord {
        id: start.id.clone(),
        object_key: start.object_key.clone(),
        content_type: "image/webp".to_owned(),
        width: processed.width as i64,
        height: processed.height as i64,
        size_bytes: size as i64,
        created_at,
        expires_at: expires_at.clone(),
    };
    let response = UploadImageResponse {
        id: start.id.clone(),
        url: image_url(public_base_url, start.id.as_str()),
        expires_at,
        width: processed.width,
        height: processed.height,
        content_type: "image/webp".to_owned(),
        size_bytes: size as u64,
    };
    Ok((record, response))
}

} // verus!
