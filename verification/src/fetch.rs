//! The rules of `GET /i/{id}`: when a stored image may be served and what
//! each outcome of the lookups answers.
use vstd::prelude::*;

use crate::db::ImageRecord;
use crate::image_processing::OUTPUT_CONTENT_TYPE;
use crate::r2::R2Error;
use crate::timestamp::{parse_rfc3339, rfc3339_instant, Timestamp, TimestampParseError};

verus! {

broadcast use vstd::string::group_string_axioms;

/// What the metadata lookup for an id found.
#[derive(Debug, Clone)]
pub enum ImageLookup {
    Found(ImageRecord),
    Missing,
    Failed,
}

/// What to do after the metadata lookup.
#[derive(Debug, Clone, PartialEq, Eq)]
pub enum FetchStep {
    /// Read this object from the store.
    ReadObject(String),
    /// Answer with this status and no image.
    Respond(u16),
}

/// A successful image answer.
#[derive(Debug, Clone, PartialEq, Eq)]
pub struct ImageResponse {
    pub content_type: String,
    pub cache_control: String,
    pub content_type_options: String,
    pub body: Vec<u8>,
}

/// Whether `record` may be served at `now` (nanoseconds since the epoch):
/// `Some(false)` if deleted or expired, `Some(true)` if still valid, `None`
/// where its expiry cannot be read.
pub open spec fn availability(record: ImageRecord, now: int) -> Option<bool> {
    if record.deleted_at is Some {
        Some(false)
    } else {
        match rfc3339_instant(record.expires_at@) {
            Some(expires_at) => Some(now < expires_at),
            None => None,
        }
    }
}

/// The step after the lookup `lookup` at time `now`.
pub open spec fn fetch_step(lookup: ImageLookup, now: int) -> FetchStep {
    match lookup {
        ImageLookup::Failed => FetchStep::Respond(500),
        ImageLookup::Missing => FetchStep::Respond(404),
        ImageLookup::Found(record) => match availability(record, now) {
            None => FetchStep::Respond(500),
            Some(false) => FetchStep::Respond(404),
            Some(true) => FetchStep::ReadObject(record.object_key),
        },
    }
}

/// Whether a stored image may be served at `now`: it must not be deleted and
/// `now` must be before its expiry.
pub fn is_image_available(record: &ImageRecord, now: &Timestamp) -> (r: Result<bool, TimestampParseError>)
    ensures
        match availability(*record, now@) {
            Some(b) => r == Ok::<bool, TimestampParseError>(b),
            None => r is Err,
        },
{
    if record.deleted_at.is_some() {
        return Ok(false);
    }
    let expires_at = parse_rfc3339(record.expires_at.as_str())?;
    Ok(now.unix_nanos() < expires_at)
}

/// Once an image is unavailable it stays so: a later time does not make it
/// available again.
pub proof fn lemma_unavailability_is_final(record: ImageRecord, t1: int, t2: int)
    requires
        t1 <= t2,
        availability(record, t1) == Some(false),
    ensures
        availability(record, t2) == Some(false),
{
}

/// A record whose expiry text reads as the instant `expires_at` and that is
/// not deleted is served exactly before that instant; with the expiry that
/// `complete_upload` records, an upload is served for `EXPIRATION_HOURS`.
pub proof fn lemma_served_until_expiry(record: ImageRecord, expires_at: int, now: int)
    requires
        record.deleted_at is None,
        rfc3339_instant(record.expires_at@) == Some(expires_at),
    ensures
        availability(record, now) == Some(now < expires_at),
        fetch_step(ImageLookup::Found(record), now) == if now < expires_at {
            FetchStep::ReadObject(record.object_key)
        } else {
            FetchStep::Respond(404)
        },
{
}

/// A record marked deleted by cleanup is answered with 404, whatever the time.
pub proof fn lemma_marked_deleted_is_not_found(record: ImageRecord, now: int)
    requires
        record.deleted_at is Some,
    ensures
        fetch_step(ImageLookup::Found(record), now) == FetchStep::Respond(404),
{
}

/// The step after the metadata lookup, at time `now`.
pub fn plan_fetch_at(lookup: ImageLookup, now: &Timestamp) -> (step: FetchStep)
    ensures
        step == fetch_step(lookup, now@),
{
    match lookup {
        ImageLookup::Failed => FetchStep::Respond(500),
        ImageLookup::Missing => FetchStep::Respond(404),
        ImageLookup::Found(record) => match is_image_available(&record, now) {
            Err(_) => FetchStep::Respond(500),
            Ok(false) => FetchStep::Respond(404),
            Ok(true) => FetchStep::ReadObject(record.object_key),
        },
    }
}

/// The step after the metadata lookup, judged at a reading of the system
/// clock taken during the call.
pub fn plan_fetch(lookup: ImageLookup) -> (step: FetchStep)
    ensures
        exists|now: int| step == fetch_step(lookup, now),
        exists|t: Timestamp| #[trigger] t.is_clock_reading() && step == fetch_step(lookup, t@),
        lookup is Failed ==> step == FetchStep::Respond(500),
        lookup is Missing ==> step == FetchStep::Respond(404),
        lookup matches ImageLookup::Found(record) ==> {
            &&& record.deleted_at is Some ==> step == FetchStep::Respond(404)
            &&& (record.deleted_at is None && rfc3339_instant(record.expires_at@) is None)
                ==> step == FetchStep::Respond(500)
            &&& step is Respond || step == FetchStep::ReadObject(record.object_key)
        },
{
    let now = Timestamp::now();
    plan_fetch_at(lookup, &now)
}

/// The answer once the object has been read (or not) from the store: the
/// image with its headers, or the status to answer with.
pub fn finish_fetch(read: Result<Vec<u8>, R2Error>) -> (r: Result<ImageResponse, u16>)
    ensures
        read matches Ok(bytes) ==> (r matches Ok(resp) && {
            &&& resp.body@ == bytes@
            &&& resp.content_type@ == "image/webp"@
            &&& resp.cache_control@ == "no-store"@
            &&& resp.content_type_options@ == "nosniff"@
        }),
        read == Err::<Vec<u8>, R2Error>(R2Error::ObjectNotFound) ==> r == Err::<ImageResponse, u16>(
            404,
        ),
        (read matches Err(e) && e != R2Error::ObjectNotFound) ==> r == Err::<ImageResponse, u16>(
            500,
        ),
{
    match read {
        Ok(body) => Ok(
            ImageResponse {
                content_type: OUTPUT_CONTENT_TYPE.to_owned(),
                cache_control: "no-store".to_owned(),
                content_type_options: "nosniff".to_owned(),
                body,
            },
        ),
        Err(R2Error::ObjectNotFound) => Err(404),
        Err(_) => Err(500),
    }
}

} // verus!
