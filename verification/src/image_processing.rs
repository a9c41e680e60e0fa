//! The image pipeline of an upload: detect the format, decode, apply the EXIF
//! orientation, shrink to fit the requested box, and encode as lossless WebP.
use image::ImageEncoder;
use vstd::prelude::*;

verus! {

/// The media type of every stored image.
pub const OUTPUT_CONTENT_TYPE: &'static str = "image/webp";

/// An upload after processing: WebP bytes and their dimensions.
#[derive(Debug)]
pub struct ProcessedImage {
    pub bytes: Vec<u8>,
    pub width: u32,
    pub height: u32,
}

/// Why an upload could not be processed.
#[derive(Debug, Clone, Copy, PartialEq, Eq)]
pub enum ImageProcessingError {
    /// The data is not JPEG, PNG or WebP.
    UnsupportedFormat,
    /// The data claims a supported format but does not decode.
    InvalidImage,
    /// The WebP encoder refused the image.
    EncodeWebp,
}

/// What `image::guess_format` reports, as far as uploads care.
#[derive(Debug, Clone, Copy, PartialEq, Eq)]
pub enum ImageFileFormat {
    Png,
    Jpeg,
    WebP,
    /// Any other format that the `image` crate recognises.
    Other,
}

/// The input formats that uploads may use.
#[derive(Debug, Clone, Copy, PartialEq, Eq)]
pub enum SupportedFormat {
    Jpeg,
    Png,
    WebP,
}

/// One operation applied to a decoded image.
#[derive(Debug, Clone, Copy, PartialEq, Eq)]
pub enum ImageStep {
    FlipHorizontal,
    FlipVertical,
    Rotate90,
    Rotate180,
    Rotate270,
    /// Lanczos3 resampling to exactly this width and height.
    Resize(u32, u32),
}

/// How an image came to be: the bytes it was decoded from, their format and
/// the operations applied since, in order. Where `integer_pixels` holds, the
/// pixels are a function of it.
#[verifier::ext_equal]
pub ghost struct ImageHistory {
    pub source: Seq<u8>,
    pub format: SupportedFormat,
    pub steps: Seq<ImageStep>,
}

/// A decoded image of the `image` crate together with its dimensions and
/// history. Only the operations of this module create one, so the recorded
/// dimensions are those of the pixels.
pub struct DecodedImage {
    image: image::DynamicImage,
    width: u32,
    height: u32,
    history: Ghost<ImageHistory>,
}

#[verifier::external_type_specification]
#[verifier::external_body]
pub struct ExDynamicImage(image::DynamicImage);

impl DecodedImage {
    /// Width in pixels.
    pub closed spec fn spec_width(&self) -> u32 {
        self.width
    }

    /// Height in pixels.
    pub closed spec fn spec_height(&self) -> u32 {
        self.height
    }

    /// How the image came to be.
    pub closed spec fn history(&self) -> ImageHistory {
        self.history@
    }

    /// Width in pixels.
    pub fn width(&self) -> (w: u32)
        ensures
            w == self.spec_width(),
    {
        self.width
    }

    /// Height in pixels.
    pub fn height(&self) -> (h: u32)
        ensures
            h == self.spec_height(),
    {
        self.height
    }
}

// ---------------------------------------------------------------------------
// Names for what the `image` and `kamadak-exif` crates compute
// ---------------------------------------------------------------------------

/// The format that `image::guess_format` reads from the leading bytes of
/// `bytes`, or `None` where it recognises none.
pub uninterp spec fn guessed_format(bytes: Seq<u8>) -> Option<ImageFileFormat>;

/// `bytes` begins with the PNG signature `89 50 4E 47 0D 0A 1A 0A`.
pub open spec fn has_png_signature(bytes: Seq<u8>) -> bool {
    bytes.len() >= 8 && bytes.take(8) == seq![0x89u8, 0x50u8, 0x4Eu8, 0x47u8, 0x0Du8, 0x0Au8, 0x1Au8, 0x0Au8]
}

/// `bytes` begins with the JPEG signature `FF D8 FF`.
pub open spec fn has_jpeg_signature(bytes: Seq<u8>) -> bool {
    bytes.len() >= 3 && bytes.take(3) == seq![0xFFu8, 0xD8u8, 0xFFu8]
}

/// `bytes` begins with `RIFF`, four bytes of any value, then `WEBP`.
pub open spec fn has_webp_signature(bytes: Seq<u8>) -> bool {
    &&& bytes.len() >= 12
    &&& bytes.take(4) == seq![0x52u8, 0x49u8, 0x46u8, 0x46u8]
    &&& bytes.subrange(8, 12) == seq![0x57u8, 0x45u8, 0x42u8, 0x50u8]
}

/// The width and height of the image that
/// `image::load_from_memory_with_format` decodes from `bytes` in `format`, or
/// `None` where decoding fails.
pub uninterp spec fn decoded_size(bytes: Seq<u8>, format: SupportedFormat) -> Option<(u32, u32)>;

/// The first unsigned value of the Orientation field of the primary IFD of
/// the Exif data that `kamadak-exif` finds in `bytes`, or `None` where there
/// is no Exif data, no such field or no such value.
pub uninterp spec fn exif_orientation_entry(bytes: Seq<u8>) -> Option<u32>;

/// The lossless WebP bytes that `image`'s `WebPEncoder` writes for the RGBA8
/// pixels of the image that `history` describes. It is a function of the
/// history only where `integer_pixels` holds, and is spoken of only there.
pub uninterp spec fn webp_lossless(history: ImageHistory) -> Seq<u8>;

/// The pixels that `history` describes come from integer work alone: a PNG
/// or WebP source, then flips and quarter turns, and no resampling (the
/// Lanczos3 filter computes with `f32::sin`, whose precision std leaves open,
/// and JPEG decoding picks SIMD code at run time).
pub open spec fn integer_pixels(history: ImageHistory) -> bool {
    &&& (history.format == SupportedFormat::Png || history.format == SupportedFormat::WebP)
    &&& forall|i: int| 0 <= i < history.steps.len() ==> !(#[trigger] history.steps[i] is Resize)
}

/// The sizes the WebP encoder accepts: each side from 1 to 16384 pixels.
pub open spec fn webp_encodable(width: u32, height: u32) -> bool {
    1 <= width <= 16384 && 1 <= height <= 16384
}

/// `bytes` is framed as a simple lossless WebP file: `RIFF`, a length,
/// `WEBP`, then a `VP8L` chunk first (the simple container, which has no room
/// for EXIF or other metadata).
pub open spec fn webp_framed(bytes: Seq<u8>) -> bool {
    &&& has_webp_signature(bytes)
    &&& bytes.len() >= 16
    &&& bytes.subrange(12, 16) == seq![0x56u8, 0x50u8, 0x38u8, 0x4Cu8]
}

/// `bytes` is a lossless WebP encoding, by `image`'s `WebPEncoder`, of the
/// RGBA8 pixels of an image that `history` describes. This is a relation,
/// not a function: where resampling or SIMD decoding is involved the pixels,
/// and so the bytes, may differ between machines and runs, and each outcome
/// stands in this relation to the history.
pub uninterp spec fn webp_encoding_of(history: ImageHistory, bytes: Seq<u8>) -> bool;

// ---------------------------------------------------------------------------
// Calls into the `image` and `kamadak-exif` crates
// ---------------------------------------------------------------------------

/// Calls `image::guess_format` and converts the `ImageFormat` it returns
/// into `ImageFileFormat` (PNG, JPEG and WebP each to their own variant, any
/// other to `Other`). Claimed: the result is the one named
/// `guessed_format`; it is PNG, JPEG or WebP exactly when the bytes begin
/// with that format's signature (the first, second and fifth entries of the
/// crate's signature table; the entries before WebP begin with other bytes
/// than `RIFF`).
#[verifier::external_body]
fn guess_image_format(input: &[u8]) -> (f: Option<ImageFileFormat>)
    ensures
        f == guessed_format(input@),
        f == Some(ImageFileFormat::Png) <==> has_png_signature(input@),
        f == Some(ImageFileFormat::Jpeg) <==> has_jpeg_signature(input@),
        f == Some(ImageFileFormat::WebP) <==> has_webp_signature(input@),
{
    match image::guess_format(input) {
        Ok(image::ImageFormat::Png) => Some(ImageFileFormat::Png),
        Ok(image::ImageFormat::Jpeg) => Some(ImageFileFormat::Jpeg),
        Ok(image::ImageFormat::WebP) => Some(ImageFileFormat::WebP),
        Ok(_) => Some(ImageFileFormat::Other),
        Err(_) => None,
    }
}

/// Calls `image::load_from_memory_with_format` with the `ImageFormat` of
/// `format`. Claimed: decoding succeeds exactly when `decoded_size` is some
/// size, the recorded dimensions are that size (read with `width()` and
/// `height()` from the decoded image), and the history is the source bytes,
/// their format and no operation.
#[verifier::external_body]
fn load_with_format(input: &[u8], format: SupportedFormat) -> (r: Option<DecodedImage>)
    ensures
        r is Some <==> decoded_size(input@, format) is Some,
        r matches Some(img) ==> {
            &&& decoded_size(input@, format) == Some((img.spec_width(), img.spec_height()))
            &&& img.history() == ImageHistory { source: input@, format, steps: Seq::empty() }
        },
{
    let image_format = match format {
        SupportedFormat::Jpeg => image::ImageFormat::Jpeg,
        SupportedFormat::Png => image::ImageFormat::Png,
        SupportedFormat::WebP => image::ImageFormat::WebP,
    };
    match image::load_from_memory_with_format(input, image_format) {
        Ok(image) => Some(DecodedImage {
            width: image.width(),
            height: image.height(),
            image,
            history: Ghost(ImageHistory { source: input@, format, steps: Seq::empty() }),
        }),
        Err(_) => None,
    }
}

/// Reads the Exif data of `input` with `exif::Reader::read_from_container`,
/// looks up `Tag::Orientation` in `In::PRIMARY` with `get_field`, and takes
/// `value.get_uint(0)` of it. Claimed: the result is the one named
/// `exif_orientation_entry`.
#[verifier::external_body]
fn read_exif_orientation(input: &[u8]) -> (o: Option<u32>)
    ensures
        o == exif_orientation_entry(input@),
{
    let mut cursor = std::io::Cursor::new(input);
    match exif::Reader::new().read_from_container(&mut cursor) {
        Ok(data) => match data.get_field(exif::Tag::Orientation, exif::In::PRIMARY) {
            Some(field) => field.value.get_uint(0),
            None => None,
        },
        Err(_) => None,
    }
}

/// `DynamicImage::fliph`. Claimed: the dimensions are kept and the step is
/// recorded.
#[verifier::external_body]
fn flip_horizontal(img: DecodedImage) -> (r: DecodedImage)
    ensures
        r.spec_width() == img.spec_width(),
        r.spec_height() == img.spec_height(),
        r.history() == (ImageHistory {
            steps: img.history().steps.push(ImageStep::FlipHorizontal),
            ..img.history()
        }),
{
    let image = img.image.fliph();
    DecodedImage { width: image.width(), height: image.height(), image, history: img.history }
}

/// `DynamicImage::flipv`. Claimed: the dimensions are kept and the step is
/// recorded.
#[verifier::external_body]
fn flip_vertical(img: DecodedImage) -> (r: DecodedImage)
    ensures
        r.spec_width() == img.spec_width(),
        r.spec_height() == img.spec_height(),
        r.history() == (ImageHistory {
            steps: img.history().steps.push(ImageStep::FlipVertical),
            ..img.history()
        }),
{
    let image = img.image.flipv();
    DecodedImage { width: image.width(), height: image.height(), image, history: img.history }
}

/// `DynamicImage::rotate90`. Claimed: width and height trade places and the
/// step is recorded.
#[verifier::external_body]
fn rotate_90(img: DecodedImage) -> (r: DecodedImage)
    ensures
        r.spec_width() == img.spec_height(),
        r.spec_height() == img.spec_width(),
        r.history() == (ImageHistory {
            steps: img.history().steps.push(ImageStep::Rotate90),
            ..img.history()
        }),
{
    let image = img.image.rotate90();
    DecodedImage { width: image.width(), height: image.height(), image, history: img.history }
}

/// `DynamicImage::rotate180`. Claimed: the dimensions are kept and the step
/// is recorded.
#[verifier::external_body]
fn rotate_180(img: DecodedImage) -> (r: DecodedImage)
    ensures
        r.spec_width() == img.spec_width(),
        r.spec_height() == img.spec_height(),
        r.history() == (ImageHistory {
            steps: img.history().steps.push(ImageStep::Rotate180),
            ..img.history()
        }),
{
    let image = img.image.rotate180();
    DecodedImage { width: image.width(), height: image.height(), image, history: img.history }
}

/// `DynamicImage::rotate270`. Claimed: width and height trade places and the
/// step is recorded.
#[verifier::external_body]
fn rotate_270(img: DecodedImage) -> (r: DecodedImage)
    ensures
        r.spec_width() == img.spec_height(),
        r.spec_height() == img.spec_width(),
        r.history() == (ImageHistory {
            steps: img.history().steps.push(ImageStep::Rotate270),
            ..img.history()
        }),
{
    let image = img.image.rotate270();
    DecodedImage { width: image.width(), height: image.height(), image, history: img.history }
}

/// `DynamicImage::resize_exact` with `FilterType::Lanczos3`. Claimed: the
/// result is exactly `width` by `height` (`imageops::resize` allocates a
/// buffer of that size in every case) and the step is recorded.
#[verifier::external_body]
fn resize_exact_lanczos3(img: DecodedImage, width: u32, height: u32) -> (r: DecodedImage)
    ensures
        r.spec_width() == width,
        r.spec_height() == height,
        r.history() == (ImageHistory {
            steps: img.history().steps.push(ImageStep::Resize(width, height)),
            ..img.history()
        }),
{
    let image = img.image.resize_exact(width, height, image::imageops::FilterType::Lanczos3);
    DecodedImage { width: image.width(), height: image.height(), image, history: img.history }
}

/// Converts the image with `to_rgba8` and writes it with
/// `image::codecs::webp::WebPEncoder::new_lossless` and `write_image`
/// (`ExtendedColorType::Rgba8`). Claimed: encoding succeeds exactly when
/// each side is from 1 to 16384 pixels (the encoder's only refusal; writing
/// into a `Vec` does not fail); the output is the simple container `RIFF`,
/// length, `WEBP`, `VP8L` (no metadata is set on the encoder); the bytes
/// encode the image the history describes (`webp_encoding_of`); and where
/// the pixels come from integer work alone, the bytes are those named
/// `webp_lossless`. Of other images the bytes are not stated.
#[verifier::external_body]
fn encode_webp_lossless(img: &DecodedImage) -> (r: Option<Vec<u8>>)
    ensures
        r is Some <==> webp_encodable(img.spec_width(), img.spec_height()),
        r matches Some(bytes) ==> webp_framed(bytes@),
        r matches Some(bytes) ==> webp_encoding_of(img.history(), bytes@),
        r matches Some(bytes) ==> (integer_pixels(img.history()) ==> bytes@ == webp_lossless(
            img.history(),
        )),
{
    let rgba = img.image.to_rgba8();
    let mut output = Vec::new();
    let encoder = image::codecs::webp::WebPEncoder::new_lossless(&mut output);
    match encoder.write_image(rgba.as_raw(), rgba.width(), rgba.height(), image::ExtendedColorType::Rgba8) {
        Ok(()) => Some(output),
        Err(_) => None,
    }
}

// ---------------------------------------------------------------------------
// Specifications of the pipeline
// ---------------------------------------------------------------------------

/// The upload format that a guessed format stands for, if it is accepted.
pub open spec fn accepted_format(f: ImageFileFormat) -> Option<SupportedFormat> {
    match f {
        ImageFileFormat::Jpeg => Some(SupportedFormat::Jpeg),
        ImageFileFormat::Png => Some(SupportedFormat::Png),
        ImageFileFormat::WebP => Some(SupportedFormat::WebP),
        ImageFileFormat::Other => None,
    }
}

/// The EXIF orientation of `input`, 1 (upright) where it has none.
pub open spec fn orientation_of(input: Seq<u8>) -> u32 {
    match exif_orientation_entry(input) {
        Some(o) => o,
        None => 1,
    }
}

/// The operations that bring an image with EXIF orientation `o` upright.
pub open spec fn orientation_steps(o: u32) -> Seq<ImageStep> {
    if o == 2 {
        seq![ImageStep::FlipHorizontal]
    } else if o == 3 {
        seq![ImageStep::Rotate180]
    } else if o == 4 {
        seq![ImageStep::FlipVertical]
    } else if o == 5 {
        seq![ImageStep::Rotate90, ImageStep::FlipHorizontal]
    } else if o == 6 {
        seq![ImageStep::Rotate90]
    } else if o == 7 {
        seq![ImageStep::Rotate90, ImageStep::FlipVertical]
    } else if o == 8 {
        seq![ImageStep::Rotate270]
    } else {
        Seq::empty()
    }
}

/// Orientations 5 to 8 turn the image a quarter, so width and height trade
/// places.
pub open spec fn orientation_swaps_axes(o: u32) -> bool {
    5 <= o <= 8
}

/// `h` followed by `steps`.
pub open spec fn then_steps(h: ImageHistory, steps: Seq<ImageStep>) -> ImageHistory {
    ImageHistory { steps: h.steps + steps, ..h }
}

// ---------------------------------------------------------------------------
// Where pixels go: the geometry of the orientation steps
// ---------------------------------------------------------------------------

/// The size, width then height, of a `w` by `h` image after `step`: the
/// quarter turns trade width and height, a resize sets both.
pub open spec fn step_size(step: ImageStep, w: int, h: int) -> (int, int) {
    match step {
        ImageStep::Rotate90 | ImageStep::Rotate270 => (h, w),
        ImageStep::Resize(nw, nh) => (nw as int, nh as int),
        _ => (w, h),
    }
}

/// Where the pixel in column `x`, row `y` of a `w` by `h` image lands after
/// the flip or turn `step`, as the `image` crate's `imageops` functions put
/// it (`Rotate90` and `Rotate270` turn clockwise). A resize resamples rather
/// than moves pixels; it keeps the position here and no orientation step
/// is one.
pub open spec fn step_pixel(step: ImageStep, w: int, h: int, x: int, y: int) -> (int, int) {
    match step {
        ImageStep::FlipHorizontal => (w - 1 - x, y),
        ImageStep::FlipVertical => (x, h - 1 - y),
        ImageStep::Rotate90 => (h - 1 - y, x),
        ImageStep::Rotate180 => (w - 1 - x, h - 1 - y),
        ImageStep::Rotate270 => (y, w - 1 - x),
        ImageStep::Resize(_, _) => (x, y),
    }
}

/// The size of a `w` by `h` image after `steps`, in order.
pub open spec fn size_after(steps: Seq<ImageStep>, w: int, h: int) -> (int, int)
    decreases steps.len(),
{
    if steps.len() == 0 {
        (w, h)
    } else {
        let s = step_size(steps[0], w, h);
        size_after(steps.drop_first(), s.0, s.1)
    }
}

/// Where the pixel in column `x`, row `y` of a `w` by `h` image lands after
/// `steps`, in order.
pub open spec fn pixel_after(steps: Seq<ImageStep>, w: int, h: int, x: int, y: int) -> (int, int)
    decreases steps.len(),
{
    if steps.len() == 0 {
        (x, y)
    } else {
        let s = step_size(steps[0], w, h);
        let p = step_pixel(steps[0], w, h, x, y);
        pixel_after(steps.drop_first(), s.0, s.1, p.0, p.1)
    }
}

/// A side of the image as it is meant to be seen.
pub enum VisualSide {
    Top,
    Bottom,
    Left,
    Right,
}

/// The position `(x, y)` of a `w` by `h` image lies on `side`.
pub open spec fn on_side(side: VisualSide, w: int, h: int, x: int, y: int) -> bool {
    match side {
        VisualSide::Top => y == 0,
        VisualSide::Bottom => y == h - 1,
        VisualSide::Left => x == 0,
        VisualSide::Right => x == w - 1,
    }
}

/// Where the stored image's first row is meant to be seen, as the EXIF
/// (TIFF 6.0) Orientation tag defines its values 1 to 8.
pub open spec fn exif_first_row_side(o: u32) -> VisualSide {
    if o == 1 || o == 2 {
        VisualSide::Top
    } else if o == 3 || o == 4 {
        VisualSide::Bottom
    } else if o == 5 || o == 8 {
        VisualSide::Left
    } else {
        VisualSide::Right
    }
}

/// Where the stored image's first column is meant to be seen, as the EXIF
/// (TIFF 6.0) Orientation tag defines its values 1 to 8.
pub open spec fn exif_first_column_side(o: u32) -> VisualSide {
    if o == 1 || o == 4 {
        VisualSide::Left
    } else if o == 2 || o == 3 {
        VisualSide::Right
    } else if o == 5 || o == 6 {
        VisualSide::Top
    } else {
        VisualSide::Bottom
    }
}

/// The steps for each EXIF orientation show the image as the tag says it
/// is meant to be seen: every pixel stays inside the turned image, the
/// stored first row ends up on the side the tag names for it, and so does
/// the stored first column. Any other value leaves the image as it is.
pub proof fn lemma_orientation_steps_follow_exif(o: u32, w: int, h: int, x: int, y: int)
    requires
        1 <= w,
        1 <= h,
        0 <= x < w,
        0 <= y < h,
    ensures
        ({
            let size = size_after(orientation_steps(o), w, h);
            let p = pixel_after(orientation_steps(o), w, h, x, y);
            &&& 0 <= p.0 < size.0
            &&& 0 <= p.1 < size.1
            &&& size == (if orientation_swaps_axes(o) { (h, w) } else { (w, h) })
            &&& 1 <= o <= 8 && y == 0 ==> on_side(exif_first_row_side(o), size.0, size.1, p.0, p.1)
            &&& 1 <= o <= 8 && x == 0 ==> on_side(exif_first_column_side(o), size.0, size.1, p.0, p.1)
            &&& !(1 <= o <= 8) ==> size == (w, h) && p == (x, y)
        }),
{
    let steps = orientation_steps(o);
    reveal_with_fuel(size_after, 3);
    reveal_with_fuel(pixel_after, 3);
    if steps.len() == 2 {
        assert(steps.drop_first().drop_first() =~= Seq::<ImageStep>::empty());
        assert(steps.drop_first() =~= seq![steps[1]]);
    } else if steps.len() == 1 {
        assert(steps.drop_first() =~= Seq::<ImageStep>::empty());
    }
}

/// Exactly the JPEG, PNG and WebP formats are accepted, each as itself.
pub proof fn lemma_accepted_formats(f: ImageFileFormat)
    ensures
        accepted_format(f) is None <==> f == ImageFileFormat::Other,
        f == ImageFileFormat::Jpeg ==> accepted_format(f) == Some(SupportedFormat::Jpeg),
        f == ImageFileFormat::Png ==> accepted_format(f) == Some(SupportedFormat::Png),
        f == ImageFileFormat::WebP ==> accepted_format(f) == Some(SupportedFormat::WebP),
{
}

/// The fraction `a.0 / a.1` is at most `b.0 / b.1` (positive denominators).
pub open spec fn ratio_le(a: (int, int), b: (int, int)) -> bool {
    a.0 * b.1 <= b.0 * a.1
}

/// The scale factor of the API's resize rule,
/// `min(max_width / src_width, max_height / src_height, 1)`, as a fraction;
/// a side of length zero puts no bound on it.
pub open spec fn fit_scale(sw: int, sh: int, mw: int, mh: int) -> (int, int) {
    let s1 = if sw > 0 && !ratio_le((1, 1), (mw, sw)) {
        (mw, sw)
    } else {
        (1, 1)
    };
    if sh > 0 && !ratio_le(s1, (mh, sh)) {
        (mh, sh)
    } else {
        s1
    }
}

/// `floor(src * scale)`, but at least 1.
pub open spec fn scaled_extent(src: int, scale: (int, int)) -> int {
    let v = src * scale.0 / scale.1;
    if v < 1 {
        1
    } else {
        v
    }
}

/// The output size for a `sw` by `sh` image and a `mw` by `mh` box.
pub open spec fn fitted_size(sw: u32, sh: u32, mw: u32, mh: u32) -> (u32, u32) {
    let s = fit_scale(sw as int, sh as int, mw as int, mh as int);
    (scaled_extent(sw as int, s) as u32, scaled_extent(sh as int, s) as u32)
}

/// What the resize step does to an image of `w` by `h` with this history.
pub open spec fn resized_history(h: ImageHistory, w: u32, ht: u32, mw: u32, mh: u32) -> ImageHistory {
    let d = fitted_size(w, ht, mw, mh);
    if d.0 == w && d.1 == ht {
        h
    } else {
        then_steps(h, seq![ImageStep::Resize(d.0, d.1)])
    }
}

/// What processing `input` for a `mw` by `mh` box leads to before
/// encoding: the history of the final image and its width and height, or
/// the error.
pub open spec fn processing_plan(input: Seq<u8>, mw: u32, mh: u32) -> Result<
    (ImageHistory, u32, u32),
    ImageProcessingError,
> {
    match guessed_format(input) {
        None => Err(ImageProcessingError::UnsupportedFormat),
        Some(f) => match accepted_format(f) {
            None => Err(ImageProcessingError::UnsupportedFormat),
            Some(format) => match decoded_size(input, format) {
                None => Err(ImageProcessingError::InvalidImage),
                Some(size) => {
                    let o = orientation_of(input);
                    let (ow, oh) = if orientation_swaps_axes(o) {
                        (size.1, size.0)
                    } else {
                        (size.0, size.1)
                    };
                    let decoded = ImageHistory { source: input, format, steps: Seq::empty() };
                    let oriented = then_steps(decoded, orientation_steps(o));
                    let d = fitted_size(ow, oh, mw, mh);
                    Ok((resized_history(oriented, ow, oh, mw, mh), d.0, d.1))
                },
            },
        },
    }
}

// ---------------------------------------------------------------------------
// Arithmetic of the resize rule
// ---------------------------------------------------------------------------

proof fn lemma_fit_scale_bounds(sw: int, sh: int, mw: int, mh: int)
    requires
        0 <= sw,
        0 <= sh,
        0 <= mw,
        0 <= mh,
    ensures
        ({
            let s = fit_scale(sw, sh, mw, mh);
            &&& 0 <= s.0 <= s.1
            &&& s.1 > 0
            &&& (s == (1int, 1int) || s == (mw, sw) || s == (mh, sh))
            &&& (sw > 0 ==> s.0 * sw <= mw * s.1)
            &&& (sh > 0 ==> s.0 * sh <= mh * s.1)
        }),
{
    let s1 = if sw > 0 && !ratio_le((1, 1), (mw, sw)) {
        (mw, sw)
    } else {
        (1int, 1int)
    };
    let s = fit_scale(sw, sh, mw, mh);
    if sh > 0 && !ratio_le(s1, (mh, sh)) {
        assert(mh * s1.1 < s1.0 * sh);
        if sw > 0 {
            assert(s1.0 * sw <= mw * s1.1);
            assert(mh * sw <= mw * sh) by (nonlinear_arith)
                requires
                    mh * s1.1 < s1.0 * sh,
                    s1.0 * sw <= mw * s1.1,
                    s1.1 > 0,
                    sw > 0,
                    sh > 0,
                    s1.0 >= 0,
                    mh >= 0,
                    mw >= 0,
            ;
        }
        assert(mh <= sh) by (nonlinear_arith)
            requires
                mh * s1.1 < s1.0 * sh,
                s1.0 <= s1.1,
                s1.1 > 0,
                sh > 0,
                s1.0 >= 0,
        ;
    }
}

proof fn lemma_floor_scaled_bound(src: int, n: int, d: int)
    requires
        0 <= src,
        0 <= n <= d,
        d > 0,
    ensures
        0 <= src * n / d <= src,
{
    assert(0 <= src * n) by (nonlinear_arith)
        requires
            0 <= src,
            0 <= n,
    ;
    assert(src * n <= src * d) by (nonlinear_arith)
        requires
            0 <= src,
            n <= d,
    ;
    assert(src * n / d <= src * d / d) by (nonlinear_arith)
        requires
            src * n <= src * d,
            d > 0,
    ;
    assert(src * d / d == src) by (nonlinear_arith)
        requires
            d > 0,
    ;
}

/// The output of the resize rule fits in the requested box.
pub proof fn lemma_fitted_size_fits_box(sw: u32, sh: u32, mw: u32, mh: u32)
    requires
        mw >= 1,
        mh >= 1,
    ensures
        fitted_size(sw, sh, mw, mh).0 <= mw,
        fitted_size(sw, sh, mw, mh).1 <= mh,
{
    let s = fit_scale(sw as int, sh as int, mw as int, mh as int);
    lemma_fit_scale_bounds(sw as int, sh as int, mw as int, mh as int);
    lemma_floor_scaled_bound(sw as int, s.0, s.1);
    lemma_floor_scaled_bound(sh as int, s.0, s.1);
    if sw > 0 {
        assert(sw * s.0 / s.1 <= mw) by (nonlinear_arith)
            requires
                s.0 * sw <= mw * s.1,
                s.1 > 0,
                sw > 0,
                s.0 >= 0,
        {
            assert(sw * s.0 <= mw * s.1);
            assert((sw * s.0) / s.1 <= (mw * s.1) / s.1);
        }
    }
    if sh > 0 {
        assert(sh * s.0 / s.1 <= mh) by (nonlinear_arith)
            requires
                s.0 * sh <= mh * s.1,
                s.1 > 0,
                sh > 0,
                s.0 >= 0,
        {
            assert(sh * s.0 <= mh * s.1);
            assert((sh * s.0) / s.1 <= (mh * s.1) / s.1);
        }
    }
}

/// The resize rule never enlarges a side beyond its source length (nor below
/// one pixel).
pub proof fn lemma_fitted_size_never_enlarges(sw: u32, sh: u32, mw: u32, mh: u32)
    ensures
        1 <= fitted_size(sw, sh, mw, mh).0 <= if sw > 0 { sw } else { 1 },
        1 <= fitted_size(sw, sh, mw, mh).1 <= if sh > 0 { sh } else { 1 },
{
    let s = fit_scale(sw as int, sh as int, mw as int, mh as int);
    lemma_fit_scale_bounds(sw as int, sh as int, mw as int, mh as int);
    lemma_floor_scaled_bound(sw as int, s.0, s.1);
    lemma_floor_scaled_bound(sh as int, s.0, s.1);
}

/// An image that already fits in the box keeps its size.
pub proof fn lemma_fitted_size_keeps_fitting_image(sw: u32, sh: u32, mw: u32, mh: u32)
    requires
        1 <= sw <= mw,
        1 <= sh <= mh,
    ensures
        fitted_size(sw, sh, mw, mh) == (sw, sh),
{
    let s = fit_scale(sw as int, sh as int, mw as int, mh as int);
    assert(ratio_le((1, 1), (mw as int, sw as int)));
    assert(s == (1int, 1int));
    assert(sw as int * 1 / 1 == sw as int);
    assert(sh as int * 1 / 1 == sh as int);
}

/// An image that does not fit is shrunk until one side meets the box
/// exactly (the factor is the largest that fits).
pub proof fn lemma_fitted_size_touches_box(sw: u32, sh: u32, mw: u32, mh: u32)
    requires
        sw >= 1,
        sh >= 1,
        mw >= 1,
        mh >= 1,
        sw > mw || sh > mh,
    ensures
        fitted_size(sw, sh, mw, mh).0 == mw || fitted_size(sw, sh, mw, mh).1 == mh,
{
    let s = fit_scale(sw as int, sh as int, mw as int, mh as int);
    lemma_fit_scale_bounds(sw as int, sh as int, mw as int, mh as int);
    if s == (1int, 1int) {
        assert(1 * sw <= mw * 1);
        assert(1 * sh <= mh * 1);
        assert(false);
    } else if s == (mw as int, sw as int) {
        assert((sw as int) * (mw as int) / (sw as int) == mw as int) by (nonlinear_arith)
            requires
                sw >= 1,
        ;
    } else {
        assert((sh as int) * (mh as int) / (sh as int) == mh as int) by (nonlinear_arith)
            requires
                sh >= 1,
        ;
    }
}

proof fn lemma_floor_scaled_monotone(src: int, a: int, b: int, c: int, d: int)
    requires
        0 <= src,
        0 <= a,
        0 <= c,
        b > 0,
        d > 0,
        a * d <= c * b,
    ensures
        src * a / b <= src * c / d,
{
    let x = src * a;
    let y = src * c;
    let q = x / b;
    assert(0 <= x && 0 <= y) by (nonlinear_arith)
        requires
            x == src * a,
            y == src * c,
            0 <= src,
            0 <= a,
            0 <= c,
    ;
    assert(x * d <= y * b) by (nonlinear_arith)
        requires
            x == src * a,
            y == src * c,
            a * d <= c * b,
            0 <= src,
    ;
    assert(q * b <= x) by (nonlinear_arith)
        requires
            q == x / b,
            b > 0,
    ;
    assert(q >= 0) by (nonlinear_arith)
        requires
            q == x / b,
            b > 0,
            x >= 0,
    ;
    assert(q * d * b <= y * b) by (nonlinear_arith)
        requires
            q * b <= x,
            x * d <= y * b,
            d > 0,
    ;
    assert(q * d <= y) by (nonlinear_arith)
        requires
            q * d * b <= y * b,
            b > 0,
    ;
    assert(q <= y / d) by (nonlinear_arith)
        requires
            q * d <= y,
            d > 0,
    ;
}

/// A larger box never gives a smaller output: the resize rule is monotone
/// in the box on both sides.
pub proof fn lemma_fitted_size_monotone_in_box(
    sw: u32,
    sh: u32,
    mw1: u32,
    mh1: u32,
    mw2: u32,
    mh2: u32,
)
    requires
        mw1 <= mw2,
        mh1 <= mh2,
    ensures
        fitted_size(sw, sh, mw1, mh1).0 <= fitted_size(sw, sh, mw2, mh2).0,
        fitted_size(sw, sh, mw1, mh1).1 <= fitted_size(sw, sh, mw2, mh2).1,
{
    let s1 = fit_scale(sw as int, sh as int, mw1 as int, mh1 as int);
    let s2 = fit_scale(sw as int, sh as int, mw2 as int, mh2 as int);
    lemma_fit_scale_bounds(sw as int, sh as int, mw1 as int, mh1 as int);
    lemma_fit_scale_bounds(sw as int, sh as int, mw2 as int, mh2 as int);
    if s2 == (1int, 1int) {
        assert(s1.0 * s2.1 <= s2.0 * s1.1);
    } else if s2 == (mw2 as int, sw as int) {
        assert(sw > 0);
        assert(s1.0 * sw <= mw1 * s1.1);
        assert(mw1 * s1.1 <= mw2 * s1.1) by (nonlinear_arith)
            requires
                mw1 <= mw2,
                s1.1 > 0,
        ;
        assert(s1.0 * s2.1 <= s2.0 * s1.1);
    } else {
        assert(s2 == (mh2 as int, sh as int));
        assert(sh > 0);
        assert(s1.0 * sh <= mh1 * s1.1);
        assert(mh1 * s1.1 <= mh2 * s1.1) by (nonlinear_arith)
            requires
                mh1 <= mh2,
                s1.1 > 0,
        ;
        assert(s1.0 * s2.1 <= s2.0 * s1.1);
    }
    lemma_floor_scaled_monotone(sw as int, s1.0, s1.1, s2.0, s2.1);
    lemma_floor_scaled_monotone(sh as int, s1.0, s1.1, s2.0, s2.1);
    lemma_floor_scaled_bound(sw as int, s1.0, s1.1);
    lemma_floor_scaled_bound(sh as int, s1.0, s1.1);
    lemma_floor_scaled_bound(sw as int, s2.0, s2.1);
    lemma_floor_scaled_bound(sh as int, s2.0, s2.1);
}

/// The output size of the resize rule, computed exactly in integers.
pub fn fitted_dimensions(src_width: u32, src_height: u32, max_width: u32, max_height: u32) -> (d: (
    u32,
    u32,
))
    ensures
        d == fitted_size(src_width, src_height, max_width, max_height),
{
    let sw = src_width as u64;
    let sh = src_height as u64;
    let mw = max_width as u64;
    let mh = max_height as u64;
    assert(forall|a: u64, b: u64| a <= 0xffff_ffff && b <= 0xffff_ffff ==> #[trigger] (a * b) <= 0xffff_fffe_0000_0001u64) by {
        assert forall|a: u64, b: u64| a <= 0xffff_ffff && b <= 0xffff_ffff implies #[trigger] (a * b) <= 0xffff_fffe_0000_0001u64 by {
            assert(a * b <= 0xffff_ffff * 0xffff_ffff) by (nonlinear_arith)
                requires
                    a <= 0xffff_ffff,
                    b <= 0xffff_ffff,
            ;
        }
    }
    let mut num: u64 = 1;
    let mut den: u64 = 1;
    if sw > 0 && !(sw <= mw) {
        num = mw;
        den = sw;
    }
    assert((num as int, den as int) == if src_width > 0 && !ratio_le((1, 1), (max_width as int, src_width as int)) {
        (max_width as int, src_width as int)
    } else {
        (1int, 1int)
    });
    if sh > 0 && !(num * sh <= mh * den) {
        num = mh;
        den = sh;
    }
    let ghost s = fit_scale(src_width as int, src_height as int, max_width as int, max_height as int);
    assert((num as int, den as int) == s);
    proof {
        lemma_fit_scale_bounds(src_width as int, src_height as int, max_width as int, max_height as int);
        lemma_floor_scaled_bound(sw as int, num as int, den as int);
        lemma_floor_scaled_bound(sh as int, num as int, den as int);
    }
    let w = sw * num / den;
    let h = sh * num / den;
    let out_w: u32 = if w < 1 { 1 } else { w as u32 };
    let out_h: u32 = if h < 1 { 1 } else { h as u32 };
    (out_w, out_h)
}

// ---------------------------------------------------------------------------
// The pipeline
// ---------------------------------------------------------------------------

/// The accepted upload format that `f` stands for.
pub fn accept_format(f: ImageFileFormat) -> (r: Option<SupportedFormat>)
    ensures
        r == accepted_format(f),
        r is None <==> f == ImageFileFormat::Other,
        f == ImageFileFormat::Jpeg ==> r == Some(SupportedFormat::Jpeg),
        f == ImageFileFormat::Png ==> r == Some(SupportedFormat::Png),
        f == ImageFileFormat::WebP ==> r == Some(SupportedFormat::WebP),
{
    match f {
        ImageFileFormat::Jpeg => Some(SupportedFormat::Jpeg),
        ImageFileFormat::Png => Some(SupportedFormat::Png),
        ImageFileFormat::WebP => Some(SupportedFormat::WebP),
        ImageFileFormat::Other => None,
    }
}

/// The EXIF orientation recorded in `input`, 1 where there is none.
pub fn extract_orientation(input: &[u8]) -> (o: u32)
    ensures
        o == orientation_of(input@),
{
    match read_exif_orientation(input) {
        Some(o) => o,
        None => 1,
    }
}

/// Brings an image with EXIF orientation `orientation` upright.
pub fn apply_orientation(image: DecodedImage, orientation: u32) -> (r: DecodedImage)
    ensures
        r.history() == then_steps(image.history(), orientation_steps(orientation)),
        orientation_swaps_axes(orientation) ==> r.spec_width() == image.spec_height()
            && r.spec_height() == image.spec_width(),
        !orientation_swaps_axes(orientation) ==> r.spec_width() == image.spec_width()
            && r.spec_height() == image.spec_height(),
{
    let ghost h = image.history();
    let r = if orientation == 2 {
        flip_horizontal(image)
    } else if orientation == 3 {
        rotate_180(image)
    } else if orientation == 4 {
        flip_vertical(image)
    } else if orientation == 5 {
        flip_horizontal(rotate_90(image))
    } else if orientation == 6 {
        rotate_90(image)
    } else if orientation == 7 {
        flip_vertical(rotate_90(image))
    } else if orientation == 8 {
        rotate_270(image)
    } else {
        image
    };
    assert(r.history() =~= then_steps(h, orientation_steps(orientation)));
    r
}

/// Shrinks an image to fit a `max_width` by `max_height` box with the API's
/// rule; an image whose size does not change is returned as it is.
pub fn resize_image(image: DecodedImage, max_width: u32, max_height: u32) -> (r: DecodedImage)
    ensures
        (r.spec_width(), r.spec_height()) == fitted_size(
            image.spec_width(),
            image.spec_height(),
            max_width,
            max_height,
        ),
        r.history() == resized_history(
            image.history(),
            image.spec_width(),
            image.spec_height(),
            max_width,
            max_height,
        ),
{
    let (w, h) = fitted_dimensions(image.width(), image.height(), max_width, max_height);
    if w == image.width() && h == image.height() {
        image
    } else {
        let ghost h0 = image.history();
        let r = resize_exact_lanczos3(image, w, h);
        assert(r.history() =~= then_steps(h0, seq![ImageStep::Resize(w, h)]));
        r
    }
}

/// Encodes an image as lossless WebP.
pub fn encode_webp(image: &DecodedImage) -> (r: Result<Vec<u8>, ImageProcessingError>)
    ensures
        r is Ok <==> webp_encodable(image.spec_width(), image.spec_height()),
        r matches Err(e) ==> e == ImageProcessingError::EncodeWebp,
        r matches Ok(bytes) ==> webp_framed(bytes@),
        r matches Ok(bytes) ==> webp_encoding_of(image.history(), bytes@),
        r matches Ok(bytes) ==> (integer_pixels(image.history()) ==> bytes@ == webp_lossless(
            image.history(),
        )),
{
    match encode_webp_lossless(image) {
        Some(bytes) => Ok(bytes),
        None => Err(ImageProcessingError::EncodeWebp),
    }
}

/// Turns uploaded bytes into an upright WebP image that fits in a
/// `max_width` by `max_height` box.
pub fn process_upload(input: &[u8], max_width: u32, max_height: u32) -> (r: Result<
    ProcessedImage,
    ImageProcessingError,
>)
    ensures
        !has_png_signature(input@) && !has_jpeg_signature(input@) && !has_webp_signature(input@)
            ==> r == Err::<ProcessedImage, ImageProcessingError>(
            ImageProcessingError::UnsupportedFormat,
        ),
        has_jpeg_signature(input@) ==> !(r matches Err(ImageProcessingError::UnsupportedFormat)),
        has_png_signature(input@) ==> !(r matches Err(ImageProcessingError::UnsupportedFormat)),
        has_webp_signature(input@) ==> !(r matches Err(ImageProcessingError::UnsupportedFormat)),
        has_jpeg_signature(input@) ==> ((r matches Err(ImageProcessingError::InvalidImage))
            <==> decoded_size(input@, SupportedFormat::Jpeg) is None),
        has_png_signature(input@) ==> ((r matches Err(ImageProcessingError::InvalidImage))
            <==> decoded_size(input@, SupportedFormat::Png) is None),
        has_webp_signature(input@) ==> ((r matches Err(ImageProcessingError::InvalidImage))
            <==> decoded_size(input@, SupportedFormat::WebP) is None),
        match processing_plan(input@, max_width, max_height) {
            Err(e) => r == Err::<ProcessedImage, ImageProcessingError>(e),
            Ok((history, width, height)) => if webp_encodable(width, height) {
                r matches Ok(p) && {
                    &&& p.width == width
                    &&& p.height == height
                    &&& webp_framed(p.bytes@)
                    &&& webp_encoding_of(history, p.bytes@)
                    &&& integer_pixels(history) ==> p.bytes@ == webp_lossless(history)
                }
            } else {
                r == Err::<ProcessedImage, ImageProcessingError>(ImageProcessingError::EncodeWebp)
            },
        },
{
    let format = match guess_image_format(input) {
        Some(f) => f,
        None => return Err(ImageProcessingError::UnsupportedFormat),
    };
    let format = match accept_format(format) {
        Some(f) => f,
        None => return Err(ImageProcessingError::UnsupportedFormat),
    };
    let image = match load_with_format(input, format) {
        Some(image) => image,
        None => return Err(ImageProcessingError::InvalidImage),
    };
    let orientation = extract_orientation(input);
    let oriented = apply_orientation(image, orientation);
    let resized = resize_image(oriented, max_width, max_height);
    let width = resized.width();
    let height = resized.height();
    let bytes = encode_webp(&resized)?;
    Ok(ProcessedImage { bytes, width, height })
}

} // verus!
