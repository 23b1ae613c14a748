use vstd::prelude::*;
use crate::paths::{extension_of, file_name_of, is_thumbnail_ext, lower_of, path_file_name, is_image_file};
use crate::text::{decimal, decimal_string};
use crate::folder::views;

verus! {

/// Lines shown of a text file.
pub const MAX_TEXT_LINES: usize = 100;

/// Folder entries read for a folder preview.
pub const MAX_FOLDER_ENTRIES: usize = 100;

/// Folder and file names listed in a folder preview, each.
pub const MAX_LISTED_NAMES: usize = 20;

/// The lines of `s`, split at `\n` or `\r\n`, without a final empty line.
pub uninterp spec fn lines_of(s: Seq<char>) -> Seq<Seq<char>>;

/// Relies on `str::lines`.
#[verifier::external_body]
pub(crate) fn split_lines(s: &str) -> (r: Vec<String>)
    ensures
        views(r@) == lines_of(s@),
{
    s.lines().map(|l| l.to_string()).collect()
}

/// `prefix` + each of `ls`, joined with newlines.
pub open spec fn join_lines(ls: Seq<Seq<char>>, prefix: Seq<char>) -> Seq<char>
    decreases ls.len(),
{
    if ls.len() == 0 {
        Seq::empty()
    } else if ls.len() == 1 {
        prefix + ls[0]
    } else {
        join_lines(ls.drop_last(), prefix) + "\n"@ + prefix + ls.last()
    }
}

/// Joins the first `limit` strings of `v`, each after `prefix`, with
/// newlines.
pub fn join_prefixed(v: &Vec<String>, prefix: &str, limit: usize) -> (r: String)
    ensures
        r@ == join_lines(
            views(v@).take(if v@.len() < limit { v@.len() as int } else { limit as int }),
            prefix@,
        ),
{
    let n: usize = if v.len() < limit { v.len() } else { limit };
    let mut s = String::new();
    let mut i: usize = 0;
    while i < n
        invariant
            n <= v@.len(),
            i <= n,
            s@ == join_lines(views(v@).take(i as int), prefix@),
        decreases n - i,
    {
        let ghost before = views(v@).take(i as int);
        let ghost after = views(v@).take(i as int + 1);
        assert(after.drop_last() =~= before);
        assert(after.last() == v@[i as int]@);
        if i > 0 {
            s.append("\n");
        }
        s.append(prefix);
        s.append(v[i].as_str());
        proof {
            if i == 0 {
                assert(s@ =~= prefix@ + after[0]);
            } else {
                assert(s@ =~= join_lines(before, prefix@) + "\n"@ + prefix@ + after.last());
            }
        }
        i = i + 1;
    }
    s
}

/// The text preview of a file with lines `ls`: a header with the line
/// count, then the first `MAX_TEXT_LINES` lines.
pub open spec fn text_preview_of(ls: Seq<Seq<char>>) -> Seq<char> {
    if ls.len() > MAX_TEXT_LINES {
        "文本预览 (前100行，共"@ + decimal(ls.len()) + "行):\n\n"@ + join_lines(
            ls.take(MAX_TEXT_LINES as int),
            Seq::empty(),
        )
    } else {
        "文本预览 ("@ + decimal(ls.len()) + "行):\n\n"@ + join_lines(ls, Seq::empty())
    }
}

/// Builds the preview of a text file from its contents.
pub fn text_preview(content: &str) -> (r: String)
    ensures
        r@ == text_preview_of(lines_of(content@)),
{
    let lines = split_lines(content);
    let n = lines.len();
    let mut s = if n > MAX_TEXT_LINES {
        String::from_str("文本预览 (前100行，共")
    } else {
        String::from_str("文本预览 (")
    };
    s.append(decimal_string(n as u64).as_str());
    s.append("行):\n\n");
    let body = join_prefixed(&lines, "", MAX_TEXT_LINES);
    proof {
        reveal_strlit("");
        assert(""@ =~= Seq::<char>::empty());
        if n <= MAX_TEXT_LINES {
            assert(views(lines@).take(n as int) =~= views(lines@));
        }
    }
    s.append(body.as_str());
    s
}

/// One entry of a folder listing.
pub struct FolderEntry {
    pub path: String,
    pub is_dir: bool,
}

/// A folder preview: its text, and the images to show as thumbnails.
pub struct FolderPreview {
    pub content: String,
    pub image_paths: Vec<String>,
}

pub open spec fn entry_name(e: FolderEntry) -> Seq<char> {
    match file_name_of(e.path@) {
        Some(n) => n,
        None => "未知"@,
    }
}

pub open spec fn is_thumbnail_path(p: Seq<char>) -> bool {
    match extension_of(p) {
        Some(e) => is_thumbnail_ext(lower_of(e)),
        None => false,
    }
}

/// Names of the folders among `es`, in order.
pub open spec fn folder_names(es: Seq<FolderEntry>) -> Seq<Seq<char>>
    decreases es.len(),
{
    if es.len() == 0 {
        Seq::empty()
    } else if es.last().is_dir {
        folder_names(es.drop_last()).push(entry_name(es.last()))
    } else {
        folder_names(es.drop_last())
    }
}

/// Names of the files among `es`, in order.
pub open spec fn file_names(es: Seq<FolderEntry>) -> Seq<Seq<char>>
    decreases es.len(),
{
    if es.len() == 0 {
        Seq::empty()
    } else if !es.last().is_dir {
        file_names(es.drop_last()).push(entry_name(es.last()))
    } else {
        file_names(es.drop_last())
    }
}

/// Paths of the image files among `es`, in order.
pub open spec fn image_paths_of(es: Seq<FolderEntry>) -> Seq<Seq<char>>
    decreases es.len(),
{
    if es.len() == 0 {
        Seq::empty()
    } else if !es.last().is_dir && is_thumbnail_path(es.last().path@) {
        image_paths_of(es.drop_last()).push(es.last().path@)
    } else {
        image_paths_of(es.drop_last())
    }
}

pub open spec fn first_names(ls: Seq<Seq<char>>) -> Seq<Seq<char>> {
    ls.take(if ls.len() < MAX_LISTED_NAMES { ls.len() as int } else { MAX_LISTED_NAMES as int })
}

/// The text of a folder preview with folder names `ds` and file names `fs`.
pub open spec fn folder_text(ds: Seq<Seq<char>>, fs: Seq<Seq<char>>) -> Seq<char> {
    if ds.len() == 0 && fs.len() == 0 {
        "文件夹为空或无法读取"@
    } else {
        "文件夹内容 ("@ + decimal(ds.len()) + " 个文件夹, "@ + decimal(fs.len()) + " 个文件)\n\n📁 文件夹:\n"@
            + join_lines(first_names(ds), "  "@) + "\n\n📄 文件:\n"@ + join_lines(
            first_names(fs),
            "  "@,
        ) + if ds.len() > MAX_LISTED_NAMES || fs.len() > MAX_LISTED_NAMES {
            "\n\n... 还有更多项目"@
        } else {
            Seq::empty()
        }
    }
}

pub open spec fn listed(es: Seq<FolderEntry>) -> Seq<FolderEntry> {
    es.take(if es.len() < MAX_FOLDER_ENTRIES { es.len() as int } else { MAX_FOLDER_ENTRIES as int })
}

/// Builds a folder preview from the folder's listing: of its first
/// `MAX_FOLDER_ENTRIES` entries, the folder and file names (the first
/// `MAX_LISTED_NAMES` of each shown) and the image files to preload.
pub fn summarize_folder(entries: &Vec<FolderEntry>) -> (r: FolderPreview)
    ensures
        r.content@ == folder_text(folder_names(listed(entries@)), file_names(listed(entries@))),
        views(r.image_paths@) == image_paths_of(listed(entries@)),
{
    let n: usize = if entries.len() < MAX_FOLDER_ENTRIES { entries.len() } else { MAX_FOLDER_ENTRIES };
    let mut folders: Vec<String> = Vec::new();
    let mut files: Vec<String> = Vec::new();
    let mut images: Vec<String> = Vec::new();
    let mut i: usize = 0;
    while i < n
        invariant
            n <= entries@.len(),
            i <= n,
            views(folders@) == folder_names(entries@.take(i as int)),
            views(files@) == file_names(entries@.take(i as int)),
            views(images@) == image_paths_of(entries@.take(i as int)),
        decreases n - i,
    {
        let ghost before = entries@.take(i as int);
        let ghost after = entries@.take(i as int + 1);
        assert(after.drop_last() =~= before);
        assert(after.last() == entries@[i as int]);
        let e = &entries[i];
        let name = match path_file_name(e.path.as_str()) {
            Some(n) => n,
            None => String::from_str("未知"),
        };
        if e.is_dir {
            folders.push(name);
            assert(views(folders@) =~= folder_names(before).push(entry_name(entries@[i as int])));
            assert(views(files@) =~= file_names(after));
        } else {
            files.push(name);
            assert(views(files@) =~= file_names(before).push(entry_name(entries@[i as int])));
            if is_image_file(e.path.as_str()) {
                images.push(e.path.clone());
                assert(views(images@) =~= image_paths_of(before).push(e.path@));
            }
        }
        i = i + 1;
    }
    assert(entries@.take(n as int) =~= listed(entries@));
    let content = if folders.len() == 0 && files.len() == 0 {
        String::from_str("文件夹为空或无法读取")
    } else {
        let mut s = String::from_str("文件夹内容 (");
        s.append(decimal_string(folders.len() as u64).as_str());
        s.append(" 个文件夹, ");
        s.append(decimal_string(files.len() as u64).as_str());
        s.append(" 个文件)\n\n📁 文件夹:\n");
        s.append(join_prefixed(&folders, "  ", MAX_LISTED_NAMES).as_str());
        s.append("\n\n📄 文件:\n");
        s.append(join_prefixed(&files, "  ", MAX_LISTED_NAMES).as_str());
        if folders.len() > MAX_LISTED_NAMES || files.len() > MAX_LISTED_NAMES {
            s.append("\n\n... 还有更多项目");
        } else {
            proof {
                assert(s@ + Seq::<char>::empty() =~= s@);
            }
        }
        s
    };
    FolderPreview { content, image_paths: images }
}

} // verus!
