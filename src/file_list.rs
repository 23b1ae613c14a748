use vstd::prelude::*;
use vstd::multiset::Multiset;
use vstd::seq_lib::{to_multiset_contains, to_multiset_insert, to_multiset_remove};
use crate::paths::{extension_of, lower_of, path_extension, to_lower};
use crate::text::{compare_str, str_eq, seq_lt, lemma_lt_irreflexive, lemma_lt_transitive, lemma_lt_total};

verus! {

/// One entry of a listed folder.
pub struct FileItem {
    pub path: String,
    pub name: String,
    pub size: u64,
    /// Modification time as displayed ("2024-05-01 12:30").
    pub modified: String,
    pub is_dir: bool,
}

/// The column a file list is sorted by.
#[derive(Clone, Copy, Debug, PartialEq, Eq, Structural)]
pub enum SortBy {
    Name,
    Size,
    Modified,
}

/// Whether `a` sorts strictly before `b` in ascending order: by name (case
/// folded) or by size with folders first, or by modification text.
pub open spec fn before(a: FileItem, b: FileItem, by: SortBy) -> bool {
    match by {
        SortBy::Name => (a.is_dir && !b.is_dir) || (a.is_dir == b.is_dir && seq_lt(
            lower_of(a.name@),
            lower_of(b.name@),
        )),
        SortBy::Size => (a.is_dir && !b.is_dir) || (a.is_dir == b.is_dir && a.size < b.size),
        SortBy::Modified => seq_lt(a.modified@, b.modified@),
    }
}

/// Whether `a` goes strictly before `b` in the chosen direction; a
/// descending order reverses the whole comparison, folders included.
pub open spec fn goes_before(a: FileItem, b: FileItem, by: SortBy, ascending: bool) -> bool {
    if ascending {
        before(a, b, by)
    } else {
        before(b, a, by)
    }
}

/// No entry goes strictly before one listed earlier.
pub open spec fn sorted_by(s: Seq<FileItem>, by: SortBy, ascending: bool) -> bool {
    forall|i: int, j: int| 0 <= i < j < s.len() ==> !goes_before(s[j], s[i], by, ascending)
}

/// The entries of `s` that are listed: all of them, or only those whose
/// name does not start with a dot.
pub open spec fn visible(s: Seq<FileItem>, show_hidden: bool) -> Seq<FileItem>
    decreases s.len(),
{
    if s.len() == 0 {
        Seq::empty()
    } else if show_hidden || !(s.last().name@.len() > 0 && s.last().name@[0] == '.') {
        visible(s.drop_last(), show_hidden).push(s.last())
    } else {
        visible(s.drop_last(), show_hidden)
    }
}

/// The order on strings never has `x` after `z` when `x` is not after `y`
/// and `y` not after `z`.
proof fn lemma_seq_not_lt_transitive(x: Seq<char>, y: Seq<char>, z: Seq<char>)
    requires
        !seq_lt(y, x),
        !seq_lt(z, y),
    ensures
        !seq_lt(z, x),
{
    lemma_lt_total(x, y);
    lemma_lt_total(y, z);
    if seq_lt(z, x) {
        if seq_lt(x, y) {
            lemma_lt_transitive(z, x, y);
            if y == z {
                lemma_lt_irreflexive(z, y);
            }
        } else if x == y {
        }
    }
}

proof fn lemma_before_order(a: FileItem, b: FileItem, c: FileItem, by: SortBy)
    ensures
        before(a, b, by) ==> !before(b, a, by),
        !before(b, a, by) && !before(c, b, by) ==> !before(c, a, by),
{
    let (ka, kb, kc) = match by {
        SortBy::Modified => (a.modified@, b.modified@, c.modified@),
        _ => (lower_of(a.name@), lower_of(b.name@), lower_of(c.name@)),
    };
    if seq_lt(ka, kb) {
        lemma_lt_irreflexive(ka, kb);
    }
    if !seq_lt(kb, ka) && !seq_lt(kc, kb) {
        lemma_seq_not_lt_transitive(ka, kb, kc);
    }
}

/// Folds the case of `s` for comparison.
fn sort_key(s: &str) -> (r: String)
    ensures
        r@ == lower_of(s@),
{
    to_lower(s)
}

/// Whether `a` goes strictly before `b` in the list's order.
pub fn compare_items(a: &FileItem, b: &FileItem, by: SortBy, ascending: bool) -> (r: bool)
    ensures
        r == goes_before(*a, *b, by, ascending),
{
    let (x, y) = if ascending { (a, b) } else { (b, a) };
    match by {
        SortBy::Name => {
            if x.is_dir != y.is_dir {
                x.is_dir
            } else {
                let kx = sort_key(x.name.as_str());
                let ky = sort_key(y.name.as_str());
                compare_str(kx.as_str(), ky.as_str()) < 0
            }
        },
        SortBy::Size => {
            if x.is_dir != y.is_dir {
                x.is_dir
            } else {
                x.size < y.size
            }
        },
        SortBy::Modified => compare_str(x.modified.as_str(), y.modified.as_str()) < 0,
    }
}

/// Sorts `items` into the list's order, keeping every entry.
pub fn sort_items(items: Vec<FileItem>, by: SortBy, ascending: bool) -> (r: Vec<FileItem>)
    ensures
        sorted_by(r@, by, ascending),
        r@.to_multiset() == items@.to_multiset(),
{
    broadcast use vstd::seq_lib::group_to_multiset_ensures;
    broadcast use vstd::multiset::group_multiset_axioms;
    broadcast use vstd::multiset::lemma_multiset_empty_len;

    let mut rest = items;
    let mut out: Vec<FileItem> = Vec::new();
    proof {
        assert(out@.to_multiset() =~= Multiset::empty());
        assert(Multiset::<FileItem>::empty().add(items@.to_multiset()) =~= items@.to_multiset());
    }
    while rest.len() > 0
        invariant
            sorted_by(out@, by, ascending),
            out@.to_multiset().add(rest@.to_multiset()) == items@.to_multiset(),
        decreases rest@.len(),
    {
        let ghost rest0 = rest@;
        let x = rest.remove(0);
        proof {
            to_multiset_remove(rest0, 0);
        }
        let mut j = out.len();
        while j > 0 && compare_items(&x, &out[j - 1], by, ascending)
            invariant
                j <= out@.len(),
                forall|k: int| j <= k < out@.len() ==> goes_before(x, out@[k], by, ascending),
            decreases j,
        {
            j = j - 1;
        }
        let ghost old_out = out@;
        proof {
            assert forall|a: int, b: int|
                0 <= a < b < old_out.len() + 1 implies !goes_before(
                old_out.insert(j as int, x)[b],
                old_out.insert(j as int, x)[a],
                by,
                ascending,
            ) by {
                let t = old_out.insert(j as int, x);
                if b < j {
                    assert(t[a] == old_out[a] && t[b] == old_out[b]);
                } else if b == j {
                    assert(t[a] == old_out[a]);
                    assert(!goes_before(x, old_out[j - 1], by, ascending));
                    if a < j - 1 {
                        assert(!goes_before(old_out[j - 1], old_out[a], by, ascending));
                        lemma_before_order(old_out[a], old_out[j - 1], x, by);
                        lemma_before_order(x, old_out[j - 1], old_out[a], by);
                    }
                } else if a == j {
                    assert(t[b] == old_out[b - 1]);
                    assert(goes_before(x, old_out[b - 1], by, ascending));
                    lemma_before_order(x, old_out[b - 1], x, by);
                    lemma_before_order(old_out[b - 1], x, x, by);
                } else if a < j {
                    assert(t[a] == old_out[a] && t[b] == old_out[b - 1]);
                } else {
                    assert(t[a] == old_out[a - 1] && t[b] == old_out[b - 1]);
                }
            }
            to_multiset_insert(old_out, j as int, x);
        }
        out.insert(j, x);
        proof {
            assert(rest0.remove(0) == rest@);
            assert(rest0[0] == x);
            assert(rest0.contains(x));
            to_multiset_contains(rest0, x);
            assert(out@.to_multiset() == old_out.to_multiset().insert(x));
            assert(rest@.to_multiset() == rest0.to_multiset().remove(x));
            assert(out@.to_multiset().add(rest@.to_multiset()) =~= old_out.to_multiset().add(
                rest0.to_multiset(),
            ));
        }
    }
    proof {
        assert(rest@.len() == 0);
        assert(rest@.to_multiset() =~= Multiset::empty());
        assert(out@.to_multiset().add(Multiset::empty()) =~= out@.to_multiset());
    }
    out
}

/// Whether an entry named `name` is hidden: its name starts with a dot.
pub fn is_hidden_name(name: &str) -> (r: bool)
    ensures
        r == (name@.len() > 0 && name@[0] == '.'),
{
    name.unicode_len() > 0 && name.get_char(0) == '.'
}

/// The entries of `items` to list, in order: all of them when
/// `show_hidden`, else those that are not hidden.
pub fn visible_items(items: Vec<FileItem>, show_hidden: bool) -> (r: Vec<FileItem>)
    ensures
        r@ == visible(items@, show_hidden),
{
    let ghost all = items@;
    let n = items.len();
    let mut rest = items;
    let mut kept: Vec<FileItem> = Vec::new();
    let mut i: usize = 0;
    while rest.len() > 0
        invariant
            n == all.len(),
            rest@ == all.skip(i as int),
            i <= all.len(),
            kept@ == visible(all.take(i as int), show_hidden),
        decreases rest@.len(),
    {
        let ghost rest0 = rest@;
        let x = rest.remove(0);
        proof {
            assert(all.take(i as int + 1).drop_last() =~= all.take(i as int));
            assert(all.take(i as int + 1).last() == x);
            assert(rest@ =~= all.skip(i as int + 1));
        }
        if show_hidden || !is_hidden_name(x.name.as_str()) {
            kept.push(x);
        }
        i = i + 1;
    }
    proof {
        assert(all.take(i as int) =~= all);
    }
    kept
}

/// Whether the file at `path` is a program: its extension is exe, in any
/// case.
pub fn is_exe_file(path: &str) -> (r: bool)
    ensures
        r == match extension_of(path@) {
            Some(e) => lower_of(e) == "exe"@,
            None => false,
        },
{
    match path_extension(path) {
        Some(e) => {
            let lower = to_lower(e.as_str());
            str_eq(lower.as_str(), "exe")
        },
        None => false,
    }
}

/// The entries of the folder shown in a file pane, in display order.
pub struct FileList {
    files: Vec<FileItem>,
    sort_by: SortBy,
    sort_ascending: bool,
}

impl FileList {
    pub closed spec fn items(&self) -> Seq<FileItem> {
        self.files@
    }

    pub closed spec fn order(&self) -> (SortBy, bool) {
        (self.sort_by, self.sort_ascending)
    }

    /// An empty list sorted by name, ascending.
    pub fn new() -> (r: FileList)
        ensures
            r.items().len() == 0,
            r.order() == (SortBy::Name, true),
    {
        FileList { files: Vec::new(), sort_by: SortBy::Name, sort_ascending: true }
    }

    /// Shows the folder listing `entries`: hidden entries are left out
    /// unless `show_hidden`, the rest sorted in the list's order.
    pub fn refresh(&mut self, entries: Vec<FileItem>, show_hidden: bool)
        ensures
            final(self).order() == old(self).order(),
            sorted_by(final(self).items(), old(self).order().0, old(self).order().1),
            final(self).items().to_multiset() == visible(entries@, show_hidden).to_multiset(),
    {
        let shown = visible_items(entries, show_hidden);
        self.files = sort_items(shown, self.sort_by, self.sort_ascending);
    }

    /// Changes the order and re-sorts the entries.
    pub fn set_sort(&mut self, by: SortBy, ascending: bool)
        ensures
            final(self).order() == (by, ascending),
            sorted_by(final(self).items(), by, ascending),
            final(self).items().to_multiset() == old(self).items().to_multiset(),
    {
        let mut files: Vec<FileItem> = Vec::new();
        core::mem::swap(&mut files, &mut self.files);
        self.sort_by = by;
        self.sort_ascending = ascending;
        self.files = sort_items(files, by, ascending);
    }

    pub fn files(&self) -> (r: &Vec<FileItem>)
        ensures
            r@ == self.items(),
    {
        &self.files
    }
}

} // verus!
