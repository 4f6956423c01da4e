//! Paths inside a repository and inside a project.

use vstd::hash_map::StringHashMap;
use vstd::prelude::*;

verus! {

/// A path relative to the root of a repository, its components separated by `/`.
#[derive(Debug)]
pub struct RepoPath {
    pub text: String,
}

impl View for RepoPath {
    type V = Seq<char>;

    open spec fn view(&self) -> Seq<char> {
        self.text@
    }
}

impl Clone for RepoPath {
    fn clone(&self) -> (r: Self)
        ensures
            r == *self,
    {
        RepoPath { text: self.text.clone() }
    }
}

impl PartialEq for RepoPath {
    fn eq(&self, other: &Self) -> (r: bool) {
        self.text == other.text
    }
}

impl vstd::std_specs::cmp::PartialEqSpecImpl for RepoPath {
    open spec fn obeys_eq_spec() -> bool {
        true
    }

    open spec fn eq_spec(&self, other: &Self) -> bool {
        self@ == other@
    }
}

impl Eq for RepoPath {

}

/// The position just behind the last `/` of a path, or 0 where it has none.
pub open spec fn name_start(path: Seq<char>) -> int
    decreases path.len(),
{
    if path.len() == 0 {
        0
    } else if path.last() == '/' {
        path.len() as int
    } else {
        name_start(path.drop_last())
    }
}

/// The last component of a path. The empty path has none.
pub open spec fn last_component(path: Seq<char>) -> Option<Seq<char>> {
    if path.len() == 0 {
        None
    } else {
        Some(path.skip(name_start(path)))
    }
}

/// What a path is called in a title: its last component, or the whole path if it has none.
pub open spec fn display_component(path: Seq<char>) -> Seq<char> {
    match last_component(path) {
        Some(name) => name,
        None => path,
    }
}

impl RepoPath {
    /// The path as text, with `/` between the components.
    pub fn as_unix_str(&self) -> (r: &str)
        ensures
            r@ == self@,
    {
        self.text.as_str()
    }

    /// The last component of the path, `None` for the empty path.
    pub fn file_name(&self) -> (r: Option<&str>)
        ensures
            match r {
                Some(name) => last_component(self@) == Some(name@),
                None => last_component(self@) is None,
            },
    {
        let text = self.text.as_str();
        let len: usize = text.unicode_len();
        if len == 0 {
            return None;
        }
        let mut start: usize = len;
        assert(text@.take(len as int) =~= text@);
        while start > 0 && text.get_char(start - 1) != '/'
            invariant
                start <= len,
                len == text@.len(),
                text@ == self@,
                name_start(text@.take(start as int)) == name_start(text@),
            decreases start,
        {
            start = start - 1;
            assert(text@.take(start + 1).drop_last() =~= text@.take(start as int));
        }
        assert(text@.subrange(start as int, len as int) =~= text@.skip(start as int));
        Some(text.substring_char(start, len))
    }
}

/// Identifies a worktree of a project.
#[derive(Clone, Copy, Debug, PartialEq, Eq, Structural)]
pub struct WorktreeId {
    pub id: u64,
}

/// A file of a project: a worktree, and a path relative to its root.
#[derive(Debug, PartialEq, Eq)]
pub struct ProjectPath {
    pub worktree_id: WorktreeId,
    pub path: String,
}

pub struct ProjectPathView {
    pub worktree_id: WorktreeId,
    pub path: Seq<char>,
}

impl View for ProjectPath {
    type V = ProjectPathView;

    open spec fn view(&self) -> ProjectPathView {
        ProjectPathView { worktree_id: self.worktree_id, path: self.path@ }
    }
}

impl Clone for ProjectPath {
    fn clone(&self) -> (r: Self)
        ensures
            r == *self,
    {
        ProjectPath { worktree_id: self.worktree_id, path: self.path.clone() }
    }
}

/// Where the files of a repository are in a project. A file that no worktree of the project
/// holds is not in the table.
pub struct ProjectPaths {
    table: StringHashMap<ProjectPath>,
}

impl View for ProjectPaths {
    type V = Map<Seq<char>, ProjectPathView>;

    closed spec fn view(&self) -> Map<Seq<char>, ProjectPathView> {
        self.table@.map_values(|path: ProjectPath| path@)
    }
}

impl ProjectPaths {
    /// A table without files.
    pub fn new() -> (r: Self)
        ensures
            r@ == Map::<Seq<char>, ProjectPathView>::empty(),
    {
        let r = ProjectPaths { table: StringHashMap::new() };
        assert(r@ =~= Map::<Seq<char>, ProjectPathView>::empty());
        r
    }

    /// Records where a file of the repository is, in place of what was recorded of it before.
    pub fn insert(&mut self, repo_path: &RepoPath, project_path: ProjectPath)
        ensures
            final(self)@ == old(self)@.insert(repo_path@, project_path@),
    {
        self.table.insert(repo_path.text.clone(), project_path);
        assert(self@ =~= old(self)@.insert(repo_path@, project_path@));
    }

    /// Where a file of the repository is, `None` if the project does not hold it.
    pub fn get(&self, repo_path: &RepoPath) -> (r: Option<&ProjectPath>)
        ensures
            match r {
                Some(path) => self@.contains_key(repo_path@) && self@[repo_path@] == path@,
                None => !self@.contains_key(repo_path@),
            },
    {
        self.table.get(repo_path.text.as_str())
    }
}

} // verus!
