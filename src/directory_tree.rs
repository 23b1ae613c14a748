use vstd::prelude::*;
use crate::folder::views;
use crate::paths::{parent_of, path_parent};
use crate::text::str_eq;

verus! {

/// Most child folders listed under the tree's root.
pub const MAX_DIRS_PER_LEVEL: usize = 50;

/// A folder of the tree, with its child folders (not yet expanded
/// themselves).
pub struct TreeNode {
    pub path: String,
    pub name: String,
    pub is_dir: bool,
    pub children: Vec<ChildNode>,
}

/// A child folder shown under a tree node.
pub struct ChildNode {
    pub path: String,
    pub name: String,
}

/// The folder tree: its root node and the folders the user expanded.
pub struct DirectoryTree {
    tree_nodes: Vec<TreeNode>,
    expanded_dirs: Vec<String>,
}

/// The ancestors of `p`, nearest first, following at most `fuel` parents.
pub open spec fn ancestors(p: Seq<char>, fuel: nat) -> Set<Seq<char>>
    decreases fuel,
{
    if fuel == 0 {
        Set::empty()
    } else {
        match parent_of(p) {
            Some(q) => ancestors(q, (fuel - 1) as nat).insert(q),
            None => Set::empty(),
        }
    }
}

/// The node for the folder `path` named `name`: when it is a folder, its
/// first `MAX_DIRS_PER_LEVEL` child folders from `subdirs` (path, name).
pub fn build_tree_node(path: String, name: String, is_dir: bool, subdirs: Vec<(String, String)>) -> (r:
    TreeNode)
    ensures
        r.path == path,
        r.name == name,
        r.is_dir == is_dir,
        r.children@.len() == if is_dir {
            if subdirs@.len() < MAX_DIRS_PER_LEVEL {
                subdirs@.len()
            } else {
                MAX_DIRS_PER_LEVEL as nat
            }
        } else {
            0
        },
        forall|i: int| 0 <= i < r.children@.len() ==> r.children@[i].path == subdirs@[i].0
            && r.children@[i].name == subdirs@[i].1,
{
    let mut children: Vec<ChildNode> = Vec::new();
    if is_dir {
        let mut i: usize = 0;
        while i < subdirs.len() && i < MAX_DIRS_PER_LEVEL
            invariant
                i <= subdirs@.len(),
                i <= MAX_DIRS_PER_LEVEL,
                children@.len() == i,
                forall|j: int| 0 <= j < i ==> children@[j].path == subdirs@[j].0
                    && children@[j].name == subdirs@[j].1,
            decreases subdirs@.len() - i,
        {
            let (p, n) = (subdirs[i].0.clone(), subdirs[i].1.clone());
            children.push(ChildNode { path: p, name: n });
            i = i + 1;
        }
    }
    TreeNode { path, name, is_dir, children }
}

impl DirectoryTree {
    pub closed spec fn expanded(&self) -> Set<Seq<char>> {
        Set::new(|k: Seq<char>| views(self.expanded_dirs@).contains(k))
    }

    pub closed spec fn roots(&self) -> Seq<TreeNode> {
        self.tree_nodes@
    }

    pub fn new() -> (r: DirectoryTree)
        ensures
            r.roots().len() == 0,
            r.expanded() == Set::<Seq<char>>::empty(),
    {
        let r = DirectoryTree { tree_nodes: Vec::new(), expanded_dirs: Vec::new() };
        assert(r.expanded() =~= Set::<Seq<char>>::empty());
        r
    }

    /// Replaces the tree by the one rooted at `root` (built from the listing
    /// of the new root folder); expanded folders stay expanded.
    pub fn refresh(&mut self, root: TreeNode)
        ensures
            final(self).roots() == seq![root],
            final(self).expanded() == old(self).expanded(),
    {
        self.tree_nodes = Vec::new();
        self.tree_nodes.push(root);
        assert(self.tree_nodes@ =~= seq![root]);
    }

    pub fn roots_view(&self) -> (r: &Vec<TreeNode>)
        ensures
            r@ == self.roots(),
    {
        &self.tree_nodes
    }

    pub fn is_expanded(&self, path: &str) -> (r: bool)
        ensures
            r == self.expanded().contains(path@),
    {
        let mut i: usize = 0;
        while i < self.expanded_dirs.len()
            invariant
                i <= self.expanded_dirs@.len(),
                forall|j: int| 0 <= j < i ==> self.expanded_dirs@[j]@ != path@,
            decreases self.expanded_dirs@.len() - i,
        {
            if str_eq(self.expanded_dirs[i].as_str(), path) {
                proof {
                    assert(views(self.expanded_dirs@)[i as int] == path@);
                }
                return true;
            }
            i = i + 1;
        }
        proof {
            if views(self.expanded_dirs@).contains(path@) {
                let j = choose|j: int|
                    0 <= j < views(self.expanded_dirs@).len() && views(self.expanded_dirs@)[j]
                        == path@;
                assert(self.expanded_dirs@[j]@ == path@);
            }
        }
        false
    }

    fn expand(&mut self, path: String)
        ensures
            final(self).expanded() == old(self).expanded().insert(path@),
            final(self).roots() == old(self).roots(),
    {
        if !self.is_expanded(path.as_str()) {
            self.expanded_dirs.push(path);
            proof {
                let v0 = views(old(self).expanded_dirs@);
                let v1 = views(self.expanded_dirs@);
                assert(v1 =~= v0.push(path@));
                assert forall|k: Seq<char>| v1.contains(k) <==> (v0.contains(k) || k == path@) by {
                    if v1.contains(k) {
                        let j = choose|j: int| 0 <= j < v1.len() && v1[j] == k;
                        if j < v0.len() {
                            assert(v0[j] == k);
                        }
                    }
                    if v0.contains(k) {
                        let j = choose|j: int| 0 <= j < v0.len() && v0[j] == k;
                        assert(v1[j] == k);
                    }
                    if k == path@ {
                        assert(v1[v0.len() as int] == k);
                    }
                }
                assert(self.expanded() =~= old(self).expanded().insert(path@));
            }
        } else {
            assert(self.expanded() =~= old(self).expanded().insert(path@));
        }
    }

    /// Expands every folder above `path`, so that it is visible.
    pub fn expand_to_path(&mut self, path: &str)
        ensures
            final(self).expanded() == old(self).expanded().union(ancestors(path@, path@.len())),
            final(self).roots() == old(self).roots(),
    {
        let mut current = String::from_str(path);
        let mut fuel = path.unicode_len();
        while fuel > 0
            invariant
                self.roots() == old(self).roots(),
                old(self).expanded().union(ancestors(path@, path@.len())) == self.expanded().union(
                    ancestors(current@, fuel as nat),
                ),
            decreases fuel,
        {
            match path_parent(current.as_str()) {
                Some(parent) => {
                    let ghost before = self.expanded();
                    self.expand(parent.clone());
                    proof {
                        assert(ancestors(current@, fuel as nat) == ancestors(
                            parent@,
                            (fuel - 1) as nat,
                        ).insert(parent@));
                        assert(before.union(ancestors(current@, fuel as nat)) =~= self.expanded().union(
                            ancestors(parent@, (fuel - 1) as nat),
                        ));
                    }
                    current = parent;
                    fuel = fuel - 1;
                },
                None => {
                    proof {
                        assert(ancestors(current@, fuel as nat) == Set::<Seq<char>>::empty());
                        assert(self.expanded().union(ancestors(current@, fuel as nat))
                            =~= self.expanded());
                        assert(self.expanded().union(ancestors(current@, 0)) =~= self.expanded());
                    }
                    fuel = 0;
                },
            }
        }
        proof {
            assert(self.expanded().union(ancestors(current@, 0)) =~= self.expanded());
        }
    }

    /// Makes `path` visible in the tree without rebuilding it.
    pub fn ensure_path_loaded(&mut self, path: &str)
        ensures
            final(self).expanded() == old(self).expanded().union(ancestors(path@, path@.len())),
            final(self).roots() == old(self).roots(),
    {
        self.expand_to_path(path);
    }
}

} // verus!
