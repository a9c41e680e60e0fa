use image_resize::db::ImageRecord;
use image_resize::fetch::{finish_fetch, is_image_available, plan_fetch_at, FetchStep, ImageLookup};
use image_resize::r2::R2Error;
use image_resize::timestamp::Timestamp;
use time::{Date, Month, PrimitiveDateTime, Time};

fn sample_record(deleted_at: Option<&str>, expires_at: &str) -> ImageRecord {
    ImageRecord {
        id: "image-a".to_owned(),
        object_key: "images/2026/03/07/image-a.webp".to_owned(),
        content_type: "image/webp".to_owned(),
        width: 640,
        height: 480,
        size_bytes: 12345,
        created_at: "2026-03-07T00:00:00Z".to_owned(),
        expires_at: expires_at.to_owned(),
        deleted_at: deleted_at.map(str::to_owned),
    }
}

fn timestamp(year: i32, month: Month, day: u8, hour: u8, minute: u8, second: u8) -> Timestamp {
    let date = Date::from_calendar_date(year, month, day).unwrap();
    let time = Time::from_hms(hour, minute, second).unwrap();
    let moment = PrimitiveDateTime::new(date, time).assume_utc();
    Timestamp::from_unix_nanos(moment.unix_timestamp_nanos()).unwrap()
}

#[test]
fn deleted_image_is_not_available() {
    let record = sample_record(Some("2026-03-07T02:00:00Z"), "2026-03-07T03:00:00Z");
    let now = timestamp(2026, Month::March, 7, 1, 0, 0);

    assert!(!is_image_available(&record, &now).unwrap());
}

#[test]
fn expired_image_is_not_available() {
    let record = sample_record(None, "2026-03-07T03:00:00Z");
    let now = timestamp(2026, Month::March, 7, 3, 0, 0);

    assert!(!is_image_available(&record, &now).unwrap());
}

#[test]
fn active_image_is_available() {
    let record = sample_record(None, "2026-03-07T03:00:01Z");
    let now = timestamp(2026, Month::March, 7, 3, 0, 0);

    assert!(is_image_available(&record, &now).unwrap());
}

#[test]
fn unreadable_expiry_is_an_error() {
    let record = sample_record(None, "tomorrow");
    let now = timestamp(2026, Month::March, 7, 3, 0, 0);

    assert!(is_image_available(&record, &now).is_err());
}

#[test]
fn expiry_with_offset_is_compared_as_an_instant() {
    // 2026-03-07T12:00:00+09:00 is 03:00:00Z.
    let record = sample_record(None, "2026-03-07T12:00:00+09:00");
    assert!(is_image_available(&record, &timestamp(2026, Month::March, 7, 2, 59, 59)).unwrap());
    assert!(!is_image_available(&record, &timestamp(2026, Month::March, 7, 3, 0, 0)).unwrap());
}

#[test]
fn lookup_outcomes_decide_the_status() {
    let now = timestamp(2026, Month::March, 7, 1, 0, 0);
    assert_eq!(plan_fetch_at(ImageLookup::Missing, &now), FetchStep::Respond(404));
    assert_eq!(plan_fetch_at(ImageLookup::Failed, &now), FetchStep::Respond(500));
    let deleted = sample_record(Some("2026-03-07T00:30:00Z"), "2026-03-07T03:00:00Z");
    assert_eq!(plan_fetch_at(ImageLookup::Found(deleted), &now), FetchStep::Respond(404));
    let broken = sample_record(None, "not a time");
    assert_eq!(plan_fetch_at(ImageLookup::Found(broken), &now), FetchStep::Respond(500));
    let active = sample_record(None, "2026-03-07T03:00:00Z");
    assert_eq!(
        plan_fetch_at(ImageLookup::Found(active), &now),
        FetchStep::ReadObject("images/2026/03/07/image-a.webp".to_owned())
    );
    let later = timestamp(2026, Month::March, 7, 4, 0, 0);
    let expired = sample_record(None, "2026-03-07T03:00:00Z");
    assert_eq!(plan_fetch_at(ImageLookup::Found(expired), &later), FetchStep::Respond(404));
}

#[test]
fn object_outcomes_decide_the_answer() {
    let response = finish_fetch(Ok(vec![1, 2, 3])).unwrap();
    assert_eq!(response.body, vec![1, 2, 3]);
    assert_eq!(response.content_type, "image/webp");
    assert_eq!(response.cache_control, "no-store");
    assert_eq!(response.content_type_options, "nosniff");
    assert_eq!(finish_fetch(Err(R2Error::ObjectNotFound)), Err(404));
    assert_eq!(finish_fetch(Err(R2Error::GetObject("boom".to_owned()))), Err(500));
    assert_eq!(finish_fetch(Err(R2Error::ReadObjectBody("cut".to_owned()))), Err(500));
}
