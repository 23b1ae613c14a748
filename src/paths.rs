use vstd::prelude::*;
use crate::text::str_eq;

verus! {

/// The extension of path `p` (the text after the last `.` of its file
/// name), or `None` where it has none or it is not valid Unicode.
pub uninterp spec fn extension_of(p: Seq<char>) -> Option<Seq<char>>;

/// The final component of path `p`, or `None` (a root, or a path ending
/// in `..`).
pub uninterp spec fn file_name_of(p: Seq<char>) -> Option<Seq<char>>;

/// `p` without its final component, or `None` for a root or an empty path.
pub uninterp spec fn parent_of(p: Seq<char>) -> Option<Seq<char>>;

/// Whether path `base` is a component-wise prefix of path `p`.
pub uninterp spec fn has_path_prefix(p: Seq<char>, base: Seq<char>) -> bool;

/// Unicode lower case of `s`.
pub uninterp spec fn lower_of(s: Seq<char>) -> Seq<char>;

/// Unicode upper case of `s`.
pub uninterp spec fn upper_of(s: Seq<char>) -> Seq<char>;

/// Relies on `std::path::Path::extension` and `OsStr::to_str`.
#[verifier::external_body]
pub(crate) fn path_extension(p: &str) -> (r: Option<String>)
    ensures
        match r {
            Some(e) => extension_of(p@) == Some(e@),
            None => extension_of(p@) is None,
        },
{
    std::path::Path::new(p).extension().and_then(|e| e.to_str()).map(|e| e.to_string())
}

/// Relies on `std::path::Path::file_name` and `OsStr::to_str`.
#[verifier::external_body]
pub(crate) fn path_file_name(p: &str) -> (r: Option<String>)
    ensures
        match r {
            Some(n) => file_name_of(p@) == Some(n@),
            None => file_name_of(p@) is None,
        },
{
    std::path::Path::new(p).file_name().and_then(|n| n.to_str()).map(|n| n.to_string())
}

/// Relies on `std::path::Path::parent` and `Path::to_str`.
#[verifier::external_body]
pub(crate) fn path_parent(p: &str) -> (r: Option<String>)
    ensures
        match r {
            Some(q) => parent_of(p@) == Some(q@),
            None => parent_of(p@) is None,
        },
{
    std::path::Path::new(p).parent().and_then(|q| q.to_str()).map(|q| q.to_string())
}

/// Relies on `std::path::Path::starts_with` (whole components only).
#[verifier::external_body]
pub(crate) fn path_starts_with(p: &str, base: &str) -> (r: bool)
    ensures
        r == has_path_prefix(p@, base@),
{
    std::path::Path::new(p).starts_with(base)
}

/// Relies on `str::to_lowercase`.
#[verifier::external_body]
pub(crate) fn to_lower(s: &str) -> (r: String)
    ensures
        r@ == lower_of(s@),
{
    s.to_lowercase()
}

/// Relies on `str::to_uppercase`.
#[verifier::external_body]
pub(crate) fn to_upper(s: &str) -> (r: String)
    ensures
        r@ == upper_of(s@),
{
    s.to_uppercase()
}

/// The image extensions decoded and preloaded, in lower case.
pub open spec fn is_image_ext(e: Seq<char>) -> bool {
    e == "jpg"@ || e == "jpeg"@ || e == "png"@ || e == "gif"@ || e == "bmp"@
}

/// The image extensions shown as thumbnails, in lower case.
pub open spec fn is_thumbnail_ext(e: Seq<char>) -> bool {
    is_image_ext(e) || e == "webp"@
}

/// Whether `p`'s extension, in any case, is one the preloader decodes.
pub open spec fn is_preload_path(p: Seq<char>) -> bool {
    match extension_of(p) {
        Some(e) => is_image_ext(lower_of(e)),
        None => false,
    }
}

/// Whether `e` is one of the decoded image extensions (exact case).
pub fn is_image_extension(e: &str) -> (r: bool)
    ensures
        r == is_image_ext(e@),
{
    str_eq(e, "jpg") || str_eq(e, "jpeg") || str_eq(e, "png") || str_eq(e, "gif") || str_eq(
        e,
        "bmp",
    )
}

/// Whether the preloader decodes the file at `path`: its extension, in any
/// case, is jpg, jpeg, png, gif or bmp.
pub fn is_preload_image(path: &str) -> (r: bool)
    ensures
        r == is_preload_path(path@),
{
    match path_extension(path) {
        Some(e) => {
            let lower = to_lower(e.as_str());
            is_image_extension(lower.as_str())
        },
        None => false,
    }
}

/// Whether the file at `path` can be shown as a thumbnail: a preloaded
/// image type or webp, in any case.
pub fn is_image_file(path: &str) -> (r: bool)
    ensures
        r == match extension_of(path@) {
            Some(e) => is_thumbnail_ext(lower_of(e)),
            None => false,
        },
{
    match path_extension(path) {
        Some(e) => {
            let lower = to_lower(e.as_str());
            is_image_extension(lower.as_str()) || str_eq(lower.as_str(), "webp")
        },
        None => false,
    }
}

/// What a selected path is previewed as.
#[derive(Clone, Copy, Debug, PartialEq, Eq, Structural)]
pub enum PreviewKind {
    Folder,
    Text,
    Image,
    Unsupported,
}

pub open spec fn is_text_ext(e: Seq<char>) -> bool {
    e == "txt"@ || e == "rs"@ || e == "js"@ || e == "py"@ || e == "html"@ || e == "css"@ || e
        == "json"@ || e == "xml"@ || e == "md"@
}

pub open spec fn preview_kind(p: Seq<char>, is_dir: bool) -> PreviewKind {
    if is_dir {
        PreviewKind::Folder
    } else {
        match extension_of(p) {
            Some(e) => if is_text_ext(lower_of(e)) {
                PreviewKind::Text
            } else if is_image_ext(lower_of(e)) {
                PreviewKind::Image
            } else {
                PreviewKind::Unsupported
            },
            None => PreviewKind::Unsupported,
        }
    }
}

/// How the file at `path` is previewed, by its extension in any case.
pub fn classify(path: &str, is_dir: bool) -> (r: PreviewKind)
    ensures
        r == preview_kind(path@, is_dir),
{
    if is_dir {
        return PreviewKind::Folder;
    }
    match path_extension(path) {
        Some(e) => {
            let lower = to_lower(e.as_str());
            let e = lower.as_str();
            if str_eq(e, "txt") || str_eq(e, "rs") || str_eq(e, "js") || str_eq(e, "py")
                || str_eq(e, "html") || str_eq(e, "css") || str_eq(e, "json") || str_eq(e, "xml")
                || str_eq(e, "md") {
                PreviewKind::Text
            } else if is_image_extension(e) {
                PreviewKind::Image
            } else {
                PreviewKind::Unsupported
            }
        },
        None => PreviewKind::Unsupported,
    }
}

} // verus!
