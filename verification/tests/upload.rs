use image_resize::timestamp::Timestamp;
use image_resize::image_processing::ProcessedImage;
use image_resize::upload::{
    accept_file_bytes, begin_upload, begin_upload_at, build_object_key, complete_upload,
    format_object_key, image_url, is_file_field, next_multipart_action, resolve_query,
    MalformedQuery, MultipartAction, MultipartEvent, UploadQuery, DEFAULT_MAX_DIMENSION,
    MAX_ALLOWED_DIMENSION, MAX_FILE_BYTES,
};
use time::{Date, Month, PrimitiveDateTime, Time};

fn utc(year: i32, month: Month, day: u8, hour: u8, minute: u8, second: u8) -> Timestamp {
    let date = Date::from_calendar_date(year, month, day).unwrap();
    let time = Time::from_hms(hour, minute, second).unwrap();
    let moment = PrimitiveDateTime::new(date, time).assume_utc();
    Timestamp::from_unix_nanos(moment.unix_timestamp_nanos()).unwrap()
}

#[test]
fn resolve_query_uses_defaults() {
    let resolved = resolve_query(Ok(UploadQuery {
        max_width: None,
        max_height: None,
    }))
    .unwrap();

    assert_eq!(resolved.max_width, DEFAULT_MAX_DIMENSION);
    assert_eq!(resolved.max_height, DEFAULT_MAX_DIMENSION);
}

#[test]
fn resolve_query_rejects_out_of_range_values() {
    let result = resolve_query(Ok(UploadQuery {
        max_width: Some(MAX_ALLOWED_DIMENSION + 1),
        max_height: Some(100),
    }));

    assert!(result.is_err());
}

#[test]
fn build_object_key_uses_expected_layout() {
    let timestamp = utc(2026, Month::March, 7, 12, 30, 0);

    let key = build_object_key("01JXYZABCDEF1234567890ABCD", &timestamp);
    assert_eq!(key, "images/2026/03/07/01JXYZABCDEF1234567890ABCD.webp");
}

#[test]
fn image_url_trims_trailing_slash() {
    assert_eq!(
        image_url("https://example.com/", "01JXYZABCDEF1234567890ABCD"),
        "https://example.com/i/01JXYZABCDEF1234567890ABCD"
    );
}

#[test]
fn upload_expires_twelve_hours_later_under_a_dated_key() {
    let now = utc(2026, Month::March, 6, 15, 0, 0);
    let start =
        begin_upload_at("01JXYZABCDEF1234567890ABCD".to_owned(), now).unwrap();
    assert_eq!(start.object_key, "images/2026/03/06/01JXYZABCDEF1234567890ABCD.webp");
    assert_eq!(start.expires_at.format_rfc3339().unwrap(), "2026-03-07T03:00:00Z");

    let processed = ProcessedImage {
        bytes: vec![0u8; 182344],
        width: 1200,
        height: 675,
    };
    let (record, response) = complete_upload(&start, &processed, "https://example.com").unwrap();
    assert_eq!(record.id, "01JXYZABCDEF1234567890ABCD");
    assert_eq!(record.created_at, "2026-03-06T15:00:00Z");
    assert_eq!(record.expires_at, "2026-03-07T03:00:00Z");
    assert_eq!(record.content_type, "image/webp");
    assert_eq!((record.width, record.height, record.size_bytes), (1200, 675, 182344));
    assert_eq!(response.url, "https://example.com/i/01JXYZABCDEF1234567890ABCD");
    assert_eq!(response.expires_at, "2026-03-07T03:00:00Z");
    assert_eq!(response.content_type, "image/webp");
    assert_eq!((response.width, response.height, response.size_bytes), (1200, 675, 182344));
}

#[test]
fn fresh_uploads_get_ulid_ids() {
    let start = begin_upload().unwrap();
    assert_eq!(start.id.len(), 26);
    assert!(start
        .id
        .chars()
        .all(|c| "0123456789ABCDEFGHJKMNPQRSTVWXYZ".contains(c)));
    assert!(start.object_key.starts_with("images/"));
    assert!(start.object_key.ends_with(&format!("/{}.webp", start.id)));
}

#[test]
fn object_key_pads_month_day_and_year() {
    let timestamp = utc(987, Month::January, 2, 0, 0, 0);
    assert_eq!(build_object_key("x", &timestamp), "images/0987/01/02/x.webp");
}

#[test]
fn image_url_keeps_bases_without_slash_and_drops_every_trailing_slash() {
    assert_eq!(image_url("https://example.com", "a"), "https://example.com/i/a");
    assert_eq!(image_url("https://example.com///", "a"), "https://example.com/i/a");
    assert_eq!(image_url("", "a"), "/i/a");
}

#[test]
fn query_bounds_are_inclusive() {
    let ok = resolve_query(Ok(UploadQuery {
        max_width: Some(1),
        max_height: Some(MAX_ALLOWED_DIMENSION),
    }))
    .unwrap();
    assert_eq!((ok.max_width, ok.max_height), (1, 4096));
    let zero = resolve_query(Ok(UploadQuery {
        max_width: Some(0),
        max_height: None,
    }))
    .unwrap_err();
    assert_eq!(zero.status, 400);
    assert_eq!(zero.message, "max_width and max_height must be between 1 and 4096");
    let malformed = resolve_query(Err(MalformedQuery)).unwrap_err();
    assert_eq!(
        malformed.message,
        "max_width and max_height must be integers between 1 and 4096"
    );
}

#[test]
fn only_the_file_field_is_read_and_size_is_limited() {
    assert!(is_file_field(Some("file")));
    assert!(!is_file_field(Some("File")));
    assert!(!is_file_field(None));
    assert_eq!(accept_file_bytes(vec![0u8; MAX_FILE_BYTES]).unwrap().len(), MAX_FILE_BYTES);
    assert_eq!(accept_file_bytes(vec![0u8; MAX_FILE_BYTES + 1]).unwrap_err().status, 413);
}

#[test]
fn object_key_is_formatted_from_the_calendar_date() {
    assert_eq!(format_object_key("abc", 2026, 3, 7), "images/2026/03/07/abc.webp");
    assert_eq!(format_object_key("abc", 5, 12, 31), "images/0005/12/31/abc.webp");
}

#[test]
fn time_of_day_does_not_change_the_object_key() {
    let id = "01JXYZABCDEF1234567890ABCD";
    let midnight = build_object_key(id, &utc(2026, Month::March, 7, 0, 0, 0));
    let noon = build_object_key(id, &utc(2026, Month::March, 7, 12, 30, 0));
    let last_second = build_object_key(id, &utc(2026, Month::March, 7, 23, 59, 59));
    assert_eq!(midnight, noon);
    assert_eq!(noon, last_second);
    let next_day = build_object_key(id, &utc(2026, Month::March, 8, 0, 0, 0));
    assert_ne!(last_second, next_day);
}

#[test]
fn different_ids_give_different_object_keys() {
    let t = utc(2026, Month::March, 7, 12, 30, 0);
    let a = build_object_key("01JXYZABCDEF1234567890ABCD", &t);
    let b = build_object_key("01JXYZABCDEF1234567890ABCE", &t);
    assert_ne!(a, b);
}

#[test]
fn the_first_field_named_file_is_read() {
    assert!(matches!(
        next_multipart_action(&MultipartEvent::Field(Some("file"))),
        MultipartAction::ReadFile
    ));
    assert!(matches!(
        next_multipart_action(&MultipartEvent::Field(Some("caption"))),
        MultipartAction::SkipField
    ));
    assert!(matches!(
        next_multipart_action(&MultipartEvent::Field(None)),
        MultipartAction::SkipField
    ));
    match next_multipart_action(&MultipartEvent::End) {
        MultipartAction::Fail(e) => {
            assert_eq!(e.status, 400);
            assert_eq!(e.code, "MISSING_FILE");
            assert_eq!(e.message, "multipart field `file` is required");
        }
        other => panic!("unexpected action {other:?}"),
    }
}
