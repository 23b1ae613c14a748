use vstd::prelude::*;
use crate::thumbnail::{PixelBuffer, decoded_size, decode_image, resize_to_rgba};

verus! {

/// Where the application icon is looked for, relative to the working
/// directory.
pub const ICON_PATH: &'static str = "material/png/logo_icon_0_150.ico";

/// Relies on `std::path::Path::exists`: whether something is at `p` now
/// (false also when it cannot be checked).
#[verifier::external_body]
fn path_exists(p: &str) -> bool {
    std::path::Path::new(p).exists()
}

/// Whether the icon file is present.
pub fn icon_file_exists() -> bool {
    path_exists(ICON_PATH)
}

/// Decodes the icon file's bytes into RGBA pixels at their own size, or
/// `None` when they do not decode.
pub fn decode_app_icon(bytes: &[u8]) -> (r: Option<PixelBuffer>)
    ensures
        match decoded_size(bytes@) {
            Some((w, h)) => (r matches Some(b) && b.width == w && b.height == h && b.rgba@.len() == 4
                * (w as int) * (h as int)),
            None => r is None,
        },
{
    match decode_image(bytes) {
        Ok((img, w, h)) => Some(resize_to_rgba(&img, w, h)),
        Err(_) => None,
    }
}

} // verus!
