use vstd::prelude::*;

verus! {

/// Longest edge, in pixels, of a generated thumbnail.
pub const THUMBNAIL_EDGE: u32 = 400;

/// Largest encoded source accepted for decoding, in bytes.
pub const MAX_SOURCE_BYTES: usize = 50 * 1024 * 1024;

#[verifier::external_type_specification]
#[verifier::external_body]
pub struct ExDynamicImage(image::DynamicImage);

#[verifier::external_type_specification]
#[verifier::external_body]
pub struct ExImageError(image::ImageError);

/// Owned RGBA pixels (four bytes per pixel, row-major, not premultiplied).
pub struct PixelBuffer {
    pub width: u32,
    pub height: u32,
    pub rgba: Vec<u8>,
}

/// Why a source could not be turned into a thumbnail.
pub enum DecodeError {
    /// The encoded source is larger than `MAX_SOURCE_BYTES`.
    TooLarge { size: usize },
    /// Decoding would need more memory or larger dimensions than allowed.
    LimitExceeded(String),
    /// The bytes are not an image of a supported format, or are damaged.
    Corrupt(String),
    /// The source could not be read at all.
    Unreadable(String),
}

/// Width and height of the image that `bytes` decode to, or `None` where
/// they do not decode.
pub uninterp spec fn decoded_size(bytes: Seq<u8>) -> Option<(u32, u32)>;

/// Relies on `image::load_from_memory` (format guessed from the leading
/// bytes) and `DynamicImage::width` / `DynamicImage::height`: the image
/// decoded from `bytes` together with its dimensions, or the decoder's error.
#[verifier::external_body]
pub(crate) fn decode_image(bytes: &[u8]) -> (r: Result<(image::DynamicImage, u32, u32), image::ImageError>)
    ensures
        match r {
            Ok((_, w, h)) => decoded_size(bytes@) == Some((w, h)),
            Err(_) => decoded_size(bytes@) is None,
        },
{
    image::load_from_memory(bytes).map(|img| {
        let (w, h) = (img.width(), img.height());
        (img, w, h)
    })
}

/// Relies on `DynamicImage::resize_exact` with the nearest-neighbour filter
/// (the result is exactly `width` x `height`) and `DynamicImage::to_rgba8`
/// with `ImageBuffer::into_raw` (four bytes per pixel of that size).
#[verifier::external_body]
pub(crate) fn resize_to_rgba(img: &image::DynamicImage, width: u32, height: u32) -> (r: PixelBuffer)
    ensures
        r.width == width,
        r.height == height,
        r.rgba@.len() == 4 * (width as int) * (height as int),
{
    let rgba = img.resize_exact(width, height, image::imageops::FilterType::Nearest).to_rgba8();
    PixelBuffer { width: rgba.width(), height: rgba.height(), rgba: rgba.into_raw() }
}

/// Relies on the variants of `image::ImageError`: true for `Limits`, the
/// error for exceeded dimension or memory limits.
#[verifier::external_body]
fn is_limit_error(e: &image::ImageError) -> bool {
    matches!(e, image::ImageError::Limits(_))
}

/// Relies on the `Display` impl of `image::ImageError`.
#[verifier::external_body]
fn error_message(e: &image::ImageError) -> String {
    e.to_string()
}

/// Dimensions of the thumbnail of a `w` x `h` image: unchanged when both
/// edges fit within `THUMBNAIL_EDGE`, else scaled (rounding down, never
/// below one pixel) so that the long edge is exactly `THUMBNAIL_EDGE`.
pub open spec fn thumbnail_dims(w: u32, h: u32) -> (u32, u32) {
    if w <= THUMBNAIL_EDGE && h <= THUMBNAIL_EDGE {
        (w, h)
    } else {
        let m: int = if w >= h { w as int } else { h as int };
        (
            scaled_edge(w as int, m) as u32,
            scaled_edge(h as int, m) as u32,
        )
    }
}

pub open spec fn scaled_edge(e: int, m: int) -> int {
    let s = e * THUMBNAIL_EDGE as int / m;
    if s < 1 { 1 } else { s }
}

proof fn lemma_scaled_edge_bounds(e: int, m: int)
    requires
        0 <= e <= m,
        m > 0,
    ensures
        1 <= scaled_edge(e, m) <= THUMBNAIL_EDGE,
        e == m ==> scaled_edge(e, m) == THUMBNAIL_EDGE,
{
    assert(e * 400 <= m * 400) by (nonlinear_arith)
        requires e <= m, m > 0;
    assert(e * 400 / m <= 400) by (nonlinear_arith)
        requires e * 400 <= m * 400, m > 0, e >= 0;
    if e == m {
        assert(m * 400 / m == 400) by (nonlinear_arith)
            requires m > 0;
    }
}

/// Thumbnail dimensions for a `w` x `h` source.
pub fn thumbnail_size(w: u32, h: u32) -> (r: (u32, u32))
    ensures
        r == thumbnail_dims(w, h),
        r.0 <= THUMBNAIL_EDGE,
        r.1 <= THUMBNAIL_EDGE,
{
    if w <= THUMBNAIL_EDGE && h <= THUMBNAIL_EDGE {
        (w, h)
    } else {
        let m: u64 = if w >= h { w as u64 } else { h as u64 };
        proof {
            lemma_scaled_edge_bounds(w as int, m as int);
            lemma_scaled_edge_bounds(h as int, m as int);
        }
        let sw = (w as u64) * (THUMBNAIL_EDGE as u64) / m;
        let sh = (h as u64) * (THUMBNAIL_EDGE as u64) / m;
        let tw: u32 = if sw < 1 { 1 } else { sw as u32 };
        let th: u32 = if sh < 1 { 1 } else { sh as u32 };
        (tw, th)
    }
}

/// Decodes an encoded image and produces its RGBA thumbnail.
///
/// Sources larger than `MAX_SOURCE_BYTES` are refused before decoding;
/// bytes that do not decode give `LimitExceeded` or `Corrupt`; everything
/// else gives a buffer of exactly `thumbnail_dims` of the decoded size.
pub fn generate_thumbnail(bytes: &[u8]) -> (r: Result<PixelBuffer, DecodeError>)
    ensures
        bytes@.len() > MAX_SOURCE_BYTES ==> (r matches Err(DecodeError::TooLarge { size }) && size
            == bytes@.len()),
        bytes@.len() <= MAX_SOURCE_BYTES ==> match decoded_size(bytes@) {
            Some((w, h)) => (r matches Ok(b) && (b.width, b.height) == thumbnail_dims(w, h)
                && b.rgba@.len() == 4 * (b.width as int) * (b.height as int)),
            None => (r matches Err(e) && (e is LimitExceeded || e is Corrupt)),
        },
{
    if bytes.len() > MAX_SOURCE_BYTES {
        return Err(DecodeError::TooLarge { size: bytes.len() });
    }
    match decode_image(bytes) {
        Ok((img, w, h)) => {
            let (tw, th) = thumbnail_size(w, h);
            Ok(resize_to_rgba(&img, tw, th))
        },
        Err(e) => {
            let message = error_message(&e);
            if is_limit_error(&e) {
                Err(DecodeError::LimitExceeded(message))
            } else {
                Err(DecodeError::Corrupt(message))
            }
        },
    }
}

} // verus!
