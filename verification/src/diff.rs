//! Diffs between trees and between commits, as a repository reports them.

use crate::path::RepoPath;
use vstd::hash_map::StringHashMap;
use vstd::prelude::*;

verus! {

/// The name of a git object.
#[derive(Clone, Copy, Debug, PartialEq, Eq)]
pub struct Oid {
    pub bytes: [u8; 20],
}

/// How a file differs from its version in the merge base.
#[derive(Clone, Copy, Debug, PartialEq, Eq)]
pub enum TreeDiffStatus {
    /// The merge base does not have the file.
    Added,
    /// The merge base has the file, with the contents `old`.
    Modified { old: Oid },
    /// Only the merge base has the file, with the contents `old`.
    Deleted { old: Oid },
}

impl TreeDiffStatus {
    /// The contents of the file in the merge base, `None` if it does not have the file.
    pub open spec fn old_contents(self) -> Option<Oid> {
        match self {
            TreeDiffStatus::Added => None,
            TreeDiffStatus::Modified { old } => Some(old),
            TreeDiffStatus::Deleted { old } => Some(old),
        }
    }

    /// The contents of the file in the merge base, `None` if it does not have the file.
    pub fn old_oid(&self) -> (r: Option<Oid>)
        ensures
            r == self.old_contents(),
    {
        match self {
            TreeDiffStatus::Added => None,
            TreeDiffStatus::Modified { old } => Some(*old),
            TreeDiffStatus::Deleted { old } => Some(*old),
        }
    }
}

/// The differences of a commit from a merge base: for each path that differs, how it does.
pub struct TreeDiff {
    paths: Vec<RepoPath>,
    entries: StringHashMap<TreeDiffStatus>,
}

pub struct TreeDiffView {
    /// The paths that differ, in the order in which they are walked.
    pub paths: Seq<Seq<char>>,
    /// How each of them differs.
    pub entries: Map<Seq<char>, TreeDiffStatus>,
}

impl TreeDiffView {
    /// Each path is walked once, and the paths walked are those with an entry.
    pub open spec fn wf(self) -> bool {
        &&& self.paths.no_duplicates()
        &&& forall|path: Seq<char>|
            self.paths.contains(path) <==> #[trigger] self.entries.contains_key(path)
    }

    pub open spec fn get(self, path: Seq<char>) -> Option<TreeDiffStatus> {
        if self.entries.contains_key(path) {
            Some(self.entries[path])
        } else {
            None
        }
    }

    /// The diff with one more entry, or with the entry of a path it has replaced. A path keeps
    /// its place in the order.
    pub open spec fn insert(self, path: Seq<char>, status: TreeDiffStatus) -> TreeDiffView {
        TreeDiffView {
            paths: if self.entries.contains_key(path) {
                self.paths
            } else {
                self.paths.push(path)
            },
            entries: self.entries.insert(path, status),
        }
    }
}

/// The texts of a sequence of paths.
pub open spec fn path_texts(paths: Seq<RepoPath>) -> Seq<Seq<char>> {
    paths.map_values(|path: RepoPath| path@)
}

impl View for TreeDiff {
    type V = TreeDiffView;

    closed spec fn view(&self) -> TreeDiffView {
        TreeDiffView { paths: path_texts(self.paths@), entries: self.entries@ }
    }
}

impl TreeDiff {
    #[verifier::type_invariant]
    pub open spec fn inv(self) -> bool {
        self@.wf()
    }

    /// A diff without differences.
    pub fn new() -> (r: Self)
        ensures
            r@ == (TreeDiffView {
                paths: Seq::<Seq<char>>::empty(),
                entries: Map::<Seq<char>, TreeDiffStatus>::empty(),
            }),
            r@.wf(),
    {
        let paths: Vec<RepoPath> = Vec::new();
        let entries: StringHashMap<TreeDiffStatus> = StringHashMap::new();
        assert(path_texts(paths@) =~= Seq::<Seq<char>>::empty());
        TreeDiff { paths, entries }
    }

    /// Records how a path differs, in place of what was recorded of it before.
    pub fn insert(&mut self, path: RepoPath, status: TreeDiffStatus)
        ensures
            final(self)@ == old(self)@.insert(path@, status),
            final(self)@.wf(),
    {
        proof {
            use_type_invariant(&*self);
        }
        let mut whole = TreeDiff::new();
        std::mem::swap(self, &mut whole);
        let ghost before = whole@;
        let TreeDiff { paths, entries } = whole;
        let mut paths = paths;
        let mut entries = entries;
        let ghost old_paths = paths@;
        let known = entries.contains_key(path.text.as_str());
        entries.insert(path.text.clone(), status);
        if !known {
            paths.push(path);
            assert(path_texts(paths@) =~= path_texts(old_paths).push(path@));
        }
        let ghost after = TreeDiffView { paths: path_texts(paths@), entries: entries@ };
        proof {
            assert(after == before.insert(path@, status));
            lemma_insert_wf(before, path@, status);
        }
        *self = TreeDiff { paths, entries };
    }

    /// How a path differs, `None` if it does not.
    pub fn get(&self, path: &RepoPath) -> (r: Option<&TreeDiffStatus>)
        ensures
            match r {
                Some(status) => self@.get(path@) == Some(*status),
                None => self@.get(path@) is None,
            },
    {
        self.entries.get(path.text.as_str())
    }

    /// The number of paths that differ.
    pub fn len(&self) -> (r: usize)
        ensures
            r == self@.paths.len(),
            self@.wf(),
    {
        proof {
            use_type_invariant(self);
        }
        self.paths.len()
    }

    /// The path at a place of the order in which the diff is walked.
    pub fn path(&self, i: usize) -> (r: &RepoPath)
        requires
            i < self@.paths.len(),
        ensures
            r@ == self@.paths[i as int],
    {
        &self.paths[i]
    }
}

/// Recording an entry keeps each path walked once.
pub proof fn lemma_insert_wf(diff: TreeDiffView, path: Seq<char>, status: TreeDiffStatus)
    requires
        diff.wf(),
    ensures
        diff.insert(path, status).wf(),
{
    let after = diff.insert(path, status);
    assert forall|p: Seq<char>|
        after.paths.contains(p) <==> #[trigger] after.entries.contains_key(p) by {
        if !diff.entries.contains_key(path) {
            assert(after.paths.last() == path);
            if diff.paths.contains(p) {
                let i = choose|i: int| 0 <= i < diff.paths.len() && diff.paths[i] == p;
                assert(after.paths[i] == p);
            }
            if after.paths.contains(p) && p != path {
                let i = choose|i: int| 0 <= i < after.paths.len() && after.paths[i] == p;
                assert(diff.paths[i] == p);
            }
        }
        assert(diff.paths.contains(p) <==> diff.entries.contains_key(p));
    }
    if !diff.entries.contains_key(path) {
        assert(!diff.paths.contains(path));
        assert forall|i: int, j: int|
            0 <= i < after.paths.len() && 0 <= j < after.paths.len() && i != j implies
            after.paths[i] != after.paths[j] by {
            if i < diff.paths.len() && j < diff.paths.len() {
                assert(diff.paths[i] != diff.paths[j]);
            } else if i < diff.paths.len() {
                assert(diff.paths.contains(diff.paths[i]));
            } else {
                assert(diff.paths.contains(diff.paths[j]));
            }
        }
    }
}

/// How a file differs between the two sides of a comparison.
#[derive(Clone, Copy, Debug, PartialEq, Eq, Structural)]
pub enum CommitFileStatus {
    Added,
    Deleted,
    Renamed,
    Copied,
    Modified,
}

/// A file that differs between the two sides of a comparison.
#[derive(Debug)]
pub struct CommitFile {
    pub path: RepoPath,
    pub status: CommitFileStatus,
    /// The contents on the old side, if it has the file.
    pub old_oid: Option<Oid>,
    /// The contents on the new side, if they are a stored object.
    pub new_oid: Option<Oid>,
    pub is_binary: bool,
}

pub struct CommitFileView {
    pub path: Seq<char>,
    pub status: CommitFileStatus,
    pub old_oid: Option<Oid>,
    pub new_oid: Option<Oid>,
    pub is_binary: bool,
}

impl View for CommitFile {
    type V = CommitFileView;

    open spec fn view(&self) -> CommitFileView {
        CommitFileView {
            path: self.path@,
            status: self.status,
            old_oid: self.old_oid,
            new_oid: self.new_oid,
            is_binary: self.is_binary,
        }
    }
}

/// The differences between the two sides of a comparison, in the order reported.
#[derive(Debug)]
pub struct CommitDiff {
    pub files: Vec<CommitFile>,
}

impl View for CommitDiff {
    type V = Seq<CommitFileView>;

    open spec fn view(&self) -> Seq<CommitFileView> {
        self.files@.map_values(|file: CommitFile| file@)
    }
}

} // verus!
