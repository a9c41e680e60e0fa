use image::{codecs::png::PngEncoder, ExtendedColorType, ImageEncoder, ImageFormat, Rgba, RgbaImage};
use image_resize::image_processing::{
    fitted_dimensions, process_upload, ImageProcessingError, OUTPUT_CONTENT_TYPE,
};

fn png_bytes(width: u32, height: u32) -> Vec<u8> {
    let source = RgbaImage::from_pixel(width, height, Rgba([255, 0, 0, 255]));
    let mut png_bytes = Vec::new();
    let encoder = PngEncoder::new(&mut png_bytes);
    encoder
        .write_image(source.as_raw(), width, height, ExtendedColorType::Rgba8)
        .unwrap();
    png_bytes
}

#[test]
fn process_upload_resizes_png_and_outputs_webp() {
    let png_bytes = png_bytes(10, 5);

    let processed = process_upload(&png_bytes, 4, 4).unwrap();
    assert_eq!(processed.width, 4);
    assert_eq!(processed.height, 2);
    assert!(!processed.bytes.is_empty());
    assert_eq!(OUTPUT_CONTENT_TYPE, "image/webp");

    let decoded =
        image::load_from_memory_with_format(&processed.bytes, ImageFormat::WebP).unwrap();
    assert_eq!(decoded.width(), 4);
    assert_eq!(decoded.height(), 2);
}

#[test]
fn process_upload_never_enlarges() {
    let processed = process_upload(&png_bytes(10, 5), 100, 100).unwrap();
    assert_eq!((processed.width, processed.height), (10, 5));
}

#[test]
fn process_upload_rejects_other_formats() {
    let gif = b"GIF89a\x01\x00\x01\x00\x00\x00\x00;".to_vec();
    assert!(matches!(process_upload(&gif, 10, 10), Err(ImageProcessingError::UnsupportedFormat)));
    assert!(matches!(process_upload(b"hello", 10, 10), Err(ImageProcessingError::UnsupportedFormat)));
}

#[test]
fn process_upload_rejects_broken_png() {
    let mut broken = png_bytes(4, 4);
    broken.truncate(20);
    assert!(matches!(process_upload(&broken, 10, 10), Err(ImageProcessingError::InvalidImage)));
}

#[test]
fn fitted_dimensions_follow_the_documented_rule() {
    // scale = min(4/10, 4/5, 1) = 0.4
    assert_eq!(fitted_dimensions(10, 5, 4, 4), (4, 2));
    // scale = min(2048/4000, 2048/3000, 1) = 0.512
    assert_eq!(fitted_dimensions(4000, 3000, 2048, 2048), (2048, 1536));
    // never enlarges
    assert_eq!(fitted_dimensions(300, 200, 4096, 4096), (300, 200));
    // a thin image keeps at least one pixel
    assert_eq!(fitted_dimensions(1000, 1, 10, 10), (10, 1));
    // an exact fraction is not rounded down below its value
    assert_eq!(fitted_dimensions(49, 98, 1, 2), (1, 2));
    // zero-sized sides impose no bound and come out as one pixel
    assert_eq!(fitted_dimensions(0, 0, 10, 10), (1, 1));
}

#[test]
fn output_is_framed_as_webp_and_inputs_are_told_by_signature() {
    let processed = process_upload(&png_bytes(3, 2), 10, 10).unwrap();
    assert_eq!(&processed.bytes[0..4], b"RIFF");
    assert_eq!(&processed.bytes[8..12], b"WEBP");
    assert_eq!(&processed.bytes[12..16], b"VP8L");
    // unresized PNG input: the same bytes every time
    let again = process_upload(&png_bytes(3, 2), 10, 10).unwrap();
    assert_eq!(processed.bytes, again.bytes);
    // a WebP input is accepted and re-encoded
    let from_webp = process_upload(&processed.bytes, 10, 10).unwrap();
    assert_eq!((from_webp.width, from_webp.height), (3, 2));
}

#[test]
fn a_larger_box_never_gives_a_smaller_output() {
    assert_eq!(fitted_dimensions(4000, 3000, 100, 2048), (100, 75));
    assert_eq!(fitted_dimensions(4000, 3000, 200, 2048), (200, 150));
    assert_eq!(fitted_dimensions(4000, 3000, 200, 100), (133, 100));
    assert_eq!(fitted_dimensions(4000, 3000, 4096, 4096), (4000, 3000));
    let boxes = [(1u32, 1u32), (2, 3), (10, 10), (640, 480), (4096, 4096)];
    for &(w1, h1) in &boxes {
        for &(w2, h2) in &boxes {
            if w1 <= w2 && h1 <= h2 {
                let small = fitted_dimensions(1234, 777, w1, h1);
                let large = fitted_dimensions(1234, 777, w2, h2);
                assert!(small.0 <= large.0 && small.1 <= large.1);
            }
        }
    }
}
