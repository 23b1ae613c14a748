use vstd::prelude::*;
use crate::paths::{extension_of, file_name_of, path_extension, path_file_name};
use crate::text::{decimal, decimal_string, str_eq};

verus! {

pub open spec fn unit_bytes(k: nat) -> nat {
    if k == 0 {
        1
    } else if k == 1 {
        1024
    } else if k == 2 {
        1048576
    } else if k == 3 {
        1073741824
    } else {
        1099511627776
    }
}

/// The largest unit (B, KB, MB, GB, TB as 0 to 4) that `size` reaches.
pub open spec fn unit_index(size: nat) -> nat {
    if size >= unit_bytes(4) {
        4
    } else if size >= unit_bytes(3) {
        3
    } else if size >= unit_bytes(2) {
        2
    } else if size >= unit_bytes(1) {
        1
    } else {
        0
    }
}

pub open spec fn unit_name(k: nat) -> Seq<char> {
    if k == 0 {
        "B"@
    } else if k == 1 {
        "KB"@
    } else if k == 2 {
        "MB"@
    } else if k == 3 {
        "GB"@
    } else {
        "TB"@
    }
}

/// `n / d` rounded to the nearest integer, ties to even.
pub open spec fn round_half_even(n: nat, d: nat) -> nat
    recommends
        d > 0,
{
    let q = n / d;
    let r = n % d;
    if 2 * r > d || (2 * r == d && q % 2 == 1) {
        q + 1
    } else {
        q
    }
}

/// A byte count as text: whole bytes below 1 KB, else the value in the
/// largest unit reached with one decimal (rounded half to even).
pub open spec fn size_text(size: nat) -> Seq<char> {
    let k = unit_index(size);
    if k == 0 {
        decimal(size) + " B"@
    } else {
        let t = round_half_even(size * 10, unit_bytes(k));
        decimal(t / 10) + "."@ + decimal(t % 10) + " "@ + unit_name(k)
    }
}

fn unit_text(k: u64) -> (r: &'static str)
    requires
        1 <= k <= 4,
    ensures
        r@ == unit_name(k as nat),
{
    if k == 1 {
        "KB"
    } else if k == 2 {
        "MB"
    } else if k == 3 {
        "GB"
    } else {
        "TB"
    }
}

/// Formats a file size for display ("512 B", "1.5 KB", "2.0 MB").
pub fn get_file_size_str(size: u64) -> (r: String)
    ensures
        r@ == size_text(size as nat),
{
    let k: u64 = if size >= 1099511627776 {
        4
    } else if size >= 1073741824 {
        3
    } else if size >= 1048576 {
        2
    } else if size >= 1024 {
        1
    } else {
        0
    };
    if k == 0 {
        let mut s = decimal_string(size);
        s.append(" B");
        return s;
    }
    let d: u128 = if k == 1 {
        1024
    } else if k == 2 {
        1048576
    } else if k == 3 {
        1073741824
    } else {
        1099511627776
    };
    assert(d == unit_bytes(k as nat));
    let n: u128 = (size as u128) * 10;
    let q = n / d;
    let rem = n % d;
    let t: u128 = if 2 * rem > d || (2 * rem == d && q % 2 == 1) {
        q + 1
    } else {
        q
    };
    assert(t == round_half_even(size as nat * 10, unit_bytes(k as nat)));
    assert(q <= n / 1024) by {
        vstd::arithmetic::div_mod::lemma_div_is_ordered_by_denominator(n as int, 1024, d as int);
    }
    let mut s = decimal_string((t / 10) as u64);
    s.append(".");
    s.append(decimal_string((t % 10) as u64).as_str());
    s.append(" ");
    s.append(unit_text(k));
    s
}

/// The icon shown beside a path; `is_dir` tells whether it is a folder.
pub open spec fn file_icon(p: Seq<char>, is_dir: bool) -> Seq<char> {
    if is_dir {
        "📁"@
    } else {
        match extension_of(p) {
            Some(e) => if e == "txt"@ {
                "📄"@
            } else if e == "rs"@ || e == "js"@ || e == "py"@ || e == "html"@ || e == "css"@ {
                "📝"@
            } else if e == "jpg"@ || e == "jpeg"@ || e == "png"@ || e == "gif"@ || e == "bmp"@ {
                "🖼️"@
            } else if e == "mp4"@ || e == "avi"@ || e == "mkv"@ {
                "🎬"@
            } else if e == "mp3"@ || e == "wav"@ || e == "flac"@ {
                "🎵"@
            } else if e == "pdf"@ {
                "📕"@
            } else if e == "zip"@ || e == "rar"@ || e == "7z"@ {
                "📦"@
            } else if e == "exe"@ || e == "msi"@ {
                "⚙️"@
            } else {
                "📄"@
            },
            None => "📄"@,
        }
    }
}

/// Icon for a path by its extension (exact case); folders get a folder.
pub fn get_file_icon(path: &str, is_dir: bool) -> (r: &'static str)
    ensures
        r@ == file_icon(path@, is_dir),
{
    if is_dir {
        return "📁";
    }
    match path_extension(path) {
        Some(e) => {
            let e = e.as_str();
            if str_eq(e, "txt") {
                "📄"
            } else if str_eq(e, "rs") || str_eq(e, "js") || str_eq(e, "py") || str_eq(e, "html")
                || str_eq(e, "css") {
                "📝"
            } else if str_eq(e, "jpg") || str_eq(e, "jpeg") || str_eq(e, "png") || str_eq(e, "gif")
                || str_eq(e, "bmp") {
                "🖼️"
            } else if str_eq(e, "mp4") || str_eq(e, "avi") || str_eq(e, "mkv") {
                "🎬"
            } else if str_eq(e, "mp3") || str_eq(e, "wav") || str_eq(e, "flac") {
                "🎵"
            } else if str_eq(e, "pdf") {
                "📕"
            } else if str_eq(e, "zip") || str_eq(e, "rar") || str_eq(e, "7z") {
                "📦"
            } else if str_eq(e, "exe") || str_eq(e, "msi") {
                "⚙️"
            } else {
                "📄"
            }
        },
        None => "📄",
    }
}

/// Whether the file name of `path` starts with a dot.
pub fn is_hidden_file(path: &str) -> (r: bool)
    ensures
        r == match file_name_of(path@) {
            Some(n) => n.len() > 0 && n[0] == '.',
            None => false,
        },
{
    match path_file_name(path) {
        Some(n) => {
            let s = n.as_str();
            s.unicode_len() > 0 && s.get_char(0) == '.'
        },
        None => false,
    }
}

} // verus!
