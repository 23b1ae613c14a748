use vstd::prelude::*;
use crate::keyed::{Slot, distinct_keys, lookup, upsert, lemma_upsert, lemma_lookup_at, find_slot, upsert_slot};
use crate::paths::{file_name_of, has_path_prefix, path_file_name, path_starts_with};
use crate::text::str_eq;

verus! {

/// A drive or mount point offered as a workspace root.
pub struct Drive {
    pub path: String,
    pub name: String,
    pub is_mounted: bool,
}

/// The drives, and for each drive root the path last worked in under it.
pub struct DriveBar {
    drives: Vec<Drive>,
    saved_paths: Vec<Slot<String>>,
}

/// The first drive, from index `i` on, whose path is a component prefix of
/// `p`; the file-system root where none is.
pub open spec fn drive_root_from(drives: Seq<Drive>, p: Seq<char>, i: int) -> Seq<char>
    decreases drives.len() - i,
{
    if i >= drives.len() || i < 0 {
        "/"@
    } else if has_path_prefix(p, drives[i].path@) {
        drives[i].path@
    } else {
        drive_root_from(drives, p, i + 1)
    }
}

/// Among the drives from index `i` on whose path is a component prefix of
/// `p`, the one with the longest path that beats `best`.
pub open spec fn deepest_drive_from(drives: Seq<Drive>, p: Seq<char>, i: int, best: Seq<char>) -> Seq<
    char,
>
    decreases drives.len() - i,
{
    if i >= drives.len() || i < 0 {
        best
    } else {
        let d = drives[i].path@;
        deepest_drive_from(
            drives,
            p,
            i + 1,
            if has_path_prefix(p, d) && d.len() > best.len() {
                d
            } else {
                best
            },
        )
    }
}

/// Label given to a well-known top-level folder offered as a drive.
pub open spec fn mount_label(mount: Seq<char>) -> Seq<char> {
    if mount == "/home"@ {
        "(用户目录)"@
    } else if mount == "/var"@ {
        "(变量数据)"@
    } else if mount == "/opt"@ {
        "(可选软件)"@
    } else if mount == "/usr"@ {
        "(用户程序)"@
    } else {
        Seq::empty()
    }
}

/// The file-system root as a drive.
pub fn root_drive() -> (r: Drive)
    ensures
        r.path@ == "/"@,
        r.name@ == "根目录 /"@,
        r.is_mounted,
{
    Drive { path: String::from_str("/"), name: String::from_str("根目录 /"), is_mounted: true }
}

/// A well-known top-level folder (such as /home) as a drive, named after it
/// with its label.
pub fn common_mount_drive(mount: &str) -> (r: Drive)
    ensures
        r.path@ == mount@,
        r.name@ == mount@ + " "@ + mount_label(mount@),
        r.is_mounted,
{
    let label = if str_eq(mount, "/home") {
        "(用户目录)"
    } else if str_eq(mount, "/var") {
        "(变量数据)"
    } else if str_eq(mount, "/opt") {
        "(可选软件)"
    } else if str_eq(mount, "/usr") {
        "(用户程序)"
    } else {
        proof {
            reveal_strlit("");
        }
        ""
    };
    let mut name = String::from_str(mount);
    name.append(" ");
    name.append(label);
    Drive { path: String::from_str(mount), name, is_mounted: true }
}

/// A mounted volume found under a mount folder, named by its last
/// component.
pub fn mount_point_drive(path: &str) -> (r: Option<Drive>)
    ensures
        match file_name_of(path@) {
            Some(n) => (r matches Some(d) && d.path@ == path@ && d.name@ == n && d.is_mounted),
            None => r is None,
        },
{
    match path_file_name(path) {
        Some(n) => Some(Drive { path: String::from_str(path), name: n, is_mounted: true }),
        None => None,
    }
}

impl DriveBar {
    pub closed spec fn drives_view(&self) -> Seq<Drive> {
        self.drives@
    }

    pub closed spec fn saved(&self) -> Seq<Slot<String>> {
        self.saved_paths@
    }

    pub open spec fn wf(&self) -> bool {
        distinct_keys(self.saved())
    }

    /// A bar offering `drives` (listed by the caller: the root, the mount
    /// points and the usual top-level folders), with nothing saved yet.
    pub fn new(drives: Vec<Drive>) -> (r: DriveBar)
        ensures
            r.wf(),
            r.drives_view() == drives@,
            r.saved().len() == 0,
    {
        DriveBar { drives, saved_paths: Vec::new() }
    }

    pub fn drives(&self) -> (r: &Vec<Drive>)
        ensures
            r@ == self.drives_view(),
    {
        &self.drives
    }

    /// The drive `path` lies on: the first drive whose path is a prefix of
    /// it, else the root.
    pub fn find_drive_root(&self, path: &str) -> (r: String)
        ensures
            r@ == drive_root_from(self.drives_view(), path@, 0),
    {
        let mut i: usize = 0;
        while i < self.drives.len()
            invariant
                i <= self.drives@.len(),
                drive_root_from(self.drives@, path@, 0) == drive_root_from(
                    self.drives@,
                    path@,
                    i as int,
                ),
            decreases self.drives@.len() - i,
        {
            if path_starts_with(path, self.drives[i].path.as_str()) {
                return self.drives[i].path.clone();
            }
            i = i + 1;
        }
        String::from_str("/")
    }

    /// Remembers `current_path` as the place last worked in on its drive.
    pub fn save_workspace_state(
        &mut self,
        current_path: &String,
        _directory_current_path: &String,
        _nav_history: &Vec<String>,
        _history_pos: usize,
    )
        requires
            old(self).wf(),
        ensures
            final(self).wf(),
            final(self).drives_view() == old(self).drives_view(),
            exists|root: String|
                root@ == drive_root_from(old(self).drives_view(), current_path@, 0)
                    && final(self).saved() == upsert(old(self).saved(), root, *current_path),
    {
        let root = self.find_drive_root(current_path.as_str());
        proof {
            lemma_upsert(self.saved_paths@, root, *current_path);
        }
        upsert_slot(&mut self.saved_paths, root, current_path.clone());
    }

    /// The path last saved for the drive rooted at `root`.
    pub fn saved_path(&self, root: &str) -> (r: Option<&String>)
        requires
            self.wf(),
        ensures
            match r {
                Some(p) => lookup(self.saved(), root@) == Some(*p),
                None => lookup(self.saved(), root@) is None,
            },
    {
        match find_slot(&self.saved_paths, root) {
            Some(i) => {
                proof {
                    lemma_lookup_at(self.saved_paths@, i as int);
                }
                Some(&self.saved_paths[i].value)
            },
            None => None,
        }
    }

    /// Switches to drive `target`: saves `current_path` under the drive with
    /// the longest path containing it (the root if none), then returns the
    /// path saved for the target drive, or its root.
    pub fn switch_drive(&mut self, current_path: &String, target: usize) -> (r: String)
        requires
            old(self).wf(),
            target < old(self).drives_view().len(),
        ensures
            final(self).wf(),
            final(self).drives_view() == old(self).drives_view(),
            exists|root: String|
                root@ == deepest_drive_from(old(self).drives_view(), current_path@, 0, "/"@)
                    && final(self).saved() == upsert(old(self).saved(), root, *current_path),
            r@ == match lookup(final(self).saved(), old(self).drives_view()[target as int].path@) {
                Some(p) => p@,
                None => old(self).drives_view()[target as int].path@,
            },
    {
        let mut best = String::from_str("/");
        let mut i: usize = 0;
        while i < self.drives.len()
            invariant
                i <= self.drives@.len(),
                deepest_drive_from(self.drives@, current_path@, 0, "/"@) == deepest_drive_from(
                    self.drives@,
                    current_path@,
                    i as int,
                    best@,
                ),
            decreases self.drives@.len() - i,
        {
            let d = &self.drives[i].path;
            if path_starts_with(current_path.as_str(), d.as_str()) && d.as_str().unicode_len()
                > best.as_str().unicode_len() {
                best = d.clone();
            }
            i = i + 1;
        }
        proof {
            lemma_upsert(self.saved_paths@, best, *current_path);
        }
        upsert_slot(&mut self.saved_paths, best, current_path.clone());
        match self.saved_path(self.drives[target].path.as_str()) {
            Some(p) => p.clone(),
            None => self.drives[target].path.clone(),
        }
    }
}

} // verus!
