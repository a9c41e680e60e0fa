use image_resize::error::ApiError;
use image_resize::image_processing::ImageProcessingError;
use image_resize::r2::{get_object_failure, R2ConfigError, R2Error};
use image_resize::upload::{map_image_processing_error, map_multipart_status};

fn parts(e: &ApiError) -> (u16, &str, &str) {
    (e.status, e.code.as_str(), e.message.as_str())
}

#[test]
fn api_errors_follow_the_error_table() {
    assert_eq!(
        parts(&ApiError::invalid_parameter("bad")),
        (400, "INVALID_PARAMETER", "bad")
    );
    assert_eq!(
        parts(&ApiError::missing_file()),
        (400, "MISSING_FILE", "multipart field `file` is required")
    );
    assert_eq!(
        parts(&ApiError::file_too_large()),
        (413, "FILE_TOO_LARGE", "uploaded file exceeds the 10 MB limit")
    );
    assert_eq!(
        parts(&ApiError::unsupported_media_type()),
        (
            415,
            "UNSUPPORTED_MEDIA_TYPE",
            "supported image formats are JPEG, PNG, and WebP"
        )
    );
    assert_eq!(
        parts(&ApiError::invalid_image()),
        (400, "INVALID_IMAGE", "failed to decode image data")
    );
    assert_eq!(
        parts(&ApiError::internal_error()),
        (500, "INTERNAL_ERROR", "internal server error")
    );
}

#[test]
fn processing_errors_map_to_answers() {
    assert_eq!(
        map_image_processing_error(ImageProcessingError::UnsupportedFormat).status,
        415
    );
    assert_eq!(
        map_image_processing_error(ImageProcessingError::InvalidImage).code,
        "INVALID_IMAGE"
    );
    assert_eq!(
        map_image_processing_error(ImageProcessingError::EncodeWebp).status,
        500
    );
}

#[test]
fn multipart_failures_map_to_answers() {
    assert_eq!(map_multipart_status(413).code, "FILE_TOO_LARGE");
    let bad = map_multipart_status(400);
    assert_eq!(
        parts(&bad),
        (400, "INVALID_PARAMETER", "invalid multipart/form-data request")
    );
    assert_eq!(map_multipart_status(503).status, 500);
}

#[test]
fn storage_errors_have_messages() {
    assert_eq!(
        R2Error::PutObject("timeout".to_owned()).message(),
        "failed to upload object to R2: timeout"
    );
    assert_eq!(
        R2Error::GetObject("denied".to_owned()).message(),
        "failed to fetch object from R2: denied"
    );
    assert_eq!(
        R2Error::ReadObjectBody("reset".to_owned()).message(),
        "failed to read object body from R2: reset"
    );
    assert_eq!(
        R2Error::DeleteObject("gone".to_owned()).message(),
        "failed to delete object from R2: gone"
    );
    assert_eq!(R2Error::ObjectNotFound.message(), "object was not found in R2");
    assert_eq!(
        R2ConfigError.message(),
        "failed to configure Cloudflare R2 client"
    );
    assert_eq!(get_object_failure(true, "x".to_owned()), R2Error::ObjectNotFound);
    assert_eq!(
        get_object_failure(false, "x".to_owned()),
        R2Error::GetObject("x".to_owned())
    );
}
