//! What a list of diff buffers compares the files with, and what it asks of the repository for
//! that.

use vstd::prelude::*;

verus! {

/// What the files are compared with.
#[derive(Debug)]
pub enum DiffBase {
    /// The changes since HEAD.
    Head,
    /// The changes that are not staged.
    Index,
    /// The changes that are staged.
    Staged,
    /// The changes since the branch that is checked out left `base_ref`.
    Merge { base_ref: String },
    /// The changes from the revision `base` to `target`.
    Comparison { base: String, target: ComparisonTarget },
}

/// The new side of a comparison.
#[derive(Debug)]
pub enum ComparisonTarget {
    Revision(String),
    Index,
    Worktree,
}

pub enum DiffBaseView {
    Head,
    Index,
    Staged,
    Merge { base_ref: Seq<char> },
    Comparison { base: Seq<char>, target: ComparisonTargetView },
}

pub enum ComparisonTargetView {
    Revision(Seq<char>),
    Index,
    Worktree,
}

impl View for ComparisonTarget {
    type V = ComparisonTargetView;

    open spec fn view(&self) -> ComparisonTargetView {
        match self {
            ComparisonTarget::Revision(revision) => ComparisonTargetView::Revision(revision@),
            ComparisonTarget::Index => ComparisonTargetView::Index,
            ComparisonTarget::Worktree => ComparisonTargetView::Worktree,
        }
    }
}

impl View for DiffBase {
    type V = DiffBaseView;

    open spec fn view(&self) -> DiffBaseView {
        match self {
            DiffBase::Head => DiffBaseView::Head,
            DiffBase::Index => DiffBaseView::Index,
            DiffBase::Staged => DiffBaseView::Staged,
            DiffBase::Merge { base_ref } => DiffBaseView::Merge { base_ref: base_ref@ },
            DiffBase::Comparison { base, target } => DiffBaseView::Comparison {
                base: base@,
                target: target@,
            },
        }
    }
}

impl DiffBaseView {
    /// The files come from a diff that the repository has to compute first.
    pub open spec fn needs_diff(self) -> bool {
        self is Merge || self is Comparison
    }
}

impl ComparisonTargetView {
    /// What the new side of a comparison is called in a title.
    pub open spec fn label(self) -> Seq<char> {
        match self {
            ComparisonTargetView::Revision(revision) => revision,
            ComparisonTargetView::Index => "index"@,
            ComparisonTargetView::Worktree => "working tree"@,
        }
    }
}

impl Clone for ComparisonTarget {
    fn clone(&self) -> (r: Self)
        ensures
            r == *self,
    {
        match self {
            ComparisonTarget::Revision(revision) => ComparisonTarget::Revision(revision.clone()),
            ComparisonTarget::Index => ComparisonTarget::Index,
            ComparisonTarget::Worktree => ComparisonTarget::Worktree,
        }
    }
}

impl PartialEq for ComparisonTarget {
    fn eq(&self, other: &Self) -> (r: bool) {
        match (self, other) {
            (ComparisonTarget::Revision(left), ComparisonTarget::Revision(right)) => *left
                == *right,
            (ComparisonTarget::Index, ComparisonTarget::Index) => true,
            (ComparisonTarget::Worktree, ComparisonTarget::Worktree) => true,
            _ => false,
        }
    }
}

impl vstd::std_specs::cmp::PartialEqSpecImpl for ComparisonTarget {
    open spec fn obeys_eq_spec() -> bool {
        true
    }

    open spec fn eq_spec(&self, other: &Self) -> bool {
        self@ == other@
    }
}

impl Eq for ComparisonTarget {

}

impl Clone for DiffBase {
    fn clone(&self) -> (r: Self)
        ensures
            r == *self,
    {
        match self {
            DiffBase::Head => DiffBase::Head,
            DiffBase::Index => DiffBase::Index,
            DiffBase::Staged => DiffBase::Staged,
            DiffBase::Merge { base_ref } => DiffBase::Merge { base_ref: base_ref.clone() },
            DiffBase::Comparison { base, target } => DiffBase::Comparison {
                base: base.clone(),
                target: target.clone(),
            },
        }
    }
}

impl PartialEq for DiffBase {
    fn eq(&self, other: &Self) -> (r: bool) {
        match (self, other) {
            (DiffBase::Head, DiffBase::Head) => true,
            (DiffBase::Index, DiffBase::Index) => true,
            (DiffBase::Staged, DiffBase::Staged) => true,
            (DiffBase::Merge { base_ref: left }, DiffBase::Merge { base_ref: right }) => *left
                == *right,
            (
                DiffBase::Comparison { base: left, target: left_target },
                DiffBase::Comparison { base: right, target: right_target },
            ) => *left == *right && *left_target == *right_target,
            _ => false,
        }
    }
}

impl vstd::std_specs::cmp::PartialEqSpecImpl for DiffBase {
    open spec fn obeys_eq_spec() -> bool {
        true
    }

    open spec fn eq_spec(&self, other: &Self) -> bool {
        self@ == other@
    }
}

impl Eq for DiffBase {

}

impl DiffBase {
    pub fn is_merge_base(&self) -> (r: bool)
        ensures
            r == (self@ is Merge),
    {
        matches!(self, DiffBase::Merge { .. })
    }

    pub fn is_comparison(&self) -> (r: bool)
        ensures
            r == (self@ is Comparison),
    {
        matches!(self, DiffBase::Comparison { .. })
    }

    pub(crate) fn needs_diff(&self) -> (r: bool)
        ensures
            r == self@.needs_diff(),
    {
        self.is_merge_base() || self.is_comparison()
    }
}

impl ComparisonTarget {
    /// What the new side of a comparison is called in a title.
    pub fn label(&self) -> (r: String)
        ensures
            r@ == self@.label(),
    {
        match self {
            ComparisonTarget::Revision(revision) => revision.clone(),
            ComparisonTarget::Index => "index".to_owned(),
            ComparisonTarget::Worktree => "working tree".to_owned(),
        }
    }
}

/// The trees that a tree diff is taken between.
#[derive(Debug, PartialEq, Eq)]
pub enum DiffTreeType {
    /// From the merge base of `base` and `head` to `head`.
    MergeBase { base: String, head: String },
}

pub enum DiffTreeTypeView {
    MergeBase { base: Seq<char>, head: Seq<char> },
}

impl View for DiffTreeType {
    type V = DiffTreeTypeView;

    open spec fn view(&self) -> DiffTreeTypeView {
        match self {
            DiffTreeType::MergeBase { base, head } => DiffTreeTypeView::MergeBase {
                base: base@,
                head: head@,
            },
        }
    }
}

/// The new side of a comparison, as the repository takes it.
#[derive(Debug, PartialEq, Eq)]
pub enum GitComparisonTarget {
    Revision(String),
    Index,
    Worktree,
}

pub enum GitComparisonTargetView {
    Revision(Seq<char>),
    Index,
    Worktree,
}

impl View for GitComparisonTarget {
    type V = GitComparisonTargetView;

    open spec fn view(&self) -> GitComparisonTargetView {
        match self {
            GitComparisonTarget::Revision(revision) => GitComparisonTargetView::Revision(
                revision@,
            ),
            GitComparisonTarget::Index => GitComparisonTargetView::Index,
            GitComparisonTarget::Worktree => GitComparisonTargetView::Worktree,
        }
    }
}

/// A repository: the entity that stands for it, and its own identifier.
#[derive(Clone, Copy, Debug, PartialEq, Eq, Structural)]
pub struct RepositoryRef {
    pub entity_id: u64,
    pub id: u64,
}

/// A diff that a repository is asked for.
#[derive(Debug, PartialEq, Eq)]
pub enum ReloadRequest {
    Tree { repo: RepositoryRef, trees: DiffTreeType },
    Comparison { repo: RepositoryRef, base: String, target: GitComparisonTarget },
}

pub enum ReloadRequestView {
    Tree { repo: RepositoryRef, trees: DiffTreeTypeView },
    Comparison { repo: RepositoryRef, base: Seq<char>, target: GitComparisonTargetView },
}

impl View for ReloadRequest {
    type V = ReloadRequestView;

    open spec fn view(&self) -> ReloadRequestView {
        match self {
            ReloadRequest::Tree { repo, trees } => ReloadRequestView::Tree {
                repo: *repo,
                trees: trees@,
            },
            ReloadRequest::Comparison { repo, base, target } => ReloadRequestView::Comparison {
                repo: *repo,
                base: base@,
                target: target@,
            },
        }
    }
}

/// The diff that a base needs of a repository, `None` for a base that needs none.
pub open spec fn diff_request(repo: RepositoryRef, base: DiffBaseView) -> Option<
    ReloadRequestView,
> {
    match base {
        DiffBaseView::Merge { base_ref } => Some(
            ReloadRequestView::Tree {
                repo,
                trees: DiffTreeTypeView::MergeBase { base: base_ref, head: "HEAD"@ },
            },
        ),
        DiffBaseView::Comparison { base, target } => Some(
            ReloadRequestView::Comparison {
                repo,
                base,
                target: match target {
                    ComparisonTargetView::Revision(revision) => GitComparisonTargetView::Revision(
                        revision,
                    ),
                    ComparisonTargetView::Index => GitComparisonTargetView::Index,
                    ComparisonTargetView::Worktree => GitComparisonTargetView::Worktree,
                },
            },
        ),
        DiffBaseView::Head | DiffBaseView::Index | DiffBaseView::Staged => None,
    }
}

/// The view of a request that may be missing.
pub open spec fn request_view(request: Option<ReloadRequest>) -> Option<ReloadRequestView> {
    match request {
        Some(request) => Some(request@),
        None => None,
    }
}

/// The diff that a base needs of a repository, `None` for a base that needs none.
pub(crate) fn make_request(repo: RepositoryRef, base: &DiffBase) -> (r: Option<ReloadRequest>)
    ensures
        request_view(r) == diff_request(repo, base@),
{
    match base {
        DiffBase::Merge { base_ref } => Some(
            ReloadRequest::Tree {
                repo,
                trees: DiffTreeType::MergeBase { base: base_ref.clone(), head: "HEAD".to_owned() },
            },
        ),
        DiffBase::Comparison { base, target } => {
            let target = match target {
                ComparisonTarget::Revision(revision) => GitComparisonTarget::Revision(
                    revision.clone(),
                ),
                ComparisonTarget::Index => GitComparisonTarget::Index,
                ComparisonTarget::Worktree => GitComparisonTarget::Worktree,
            };
            Some(ReloadRequest::Comparison { repo, base: base.clone(), target })
        },
        DiffBase::Head | DiffBase::Index | DiffBase::Staged => None,
    }
}

} // verus!
