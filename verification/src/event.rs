//! What goes into a list of diff buffers and what comes out of it: events, observations,
//! effects and listed files.

use crate::base::RepositoryRef;
use crate::diff::CommitDiff;
use crate::diff::CommitFileView;
use crate::diff::TreeDiff;
use crate::diff::TreeDiffView;
use crate::load::text_view;
use crate::load::BufferLoad;
use crate::load::BufferLoadView;
use crate::path::RepoPath;
use crate::status::FileStatus;
use crate::status::ReportedStatus;
use crate::status::StatusEntry;
use crate::status::StatusEntryView;
use vstd::prelude::*;

verus! {

/// What observers of a list are told.
#[derive(Clone, Copy, Debug, PartialEq, Eq, Structural)]
pub enum BranchDiffEvent {
    FileListChanged,
    DiffBaseChanged,
}

/// What becomes of the task that reloads the diff.
#[derive(Clone, Copy, Debug, PartialEq, Eq, Structural)]
pub enum TaskChange {
    Keep,
    /// The task, if there is one, is cancelled.
    Cancel,
    /// A new task takes the place of the old, which is cancelled.
    Start,
}

/// What is left to do after an operation on a list.
#[derive(Clone, Copy, Debug, PartialEq, Eq, Structural)]
pub struct Effects {
    /// The event to emit.
    pub event: Option<BranchDiffEvent>,
    /// Whether to wake the worker that handles status updates.
    pub update: bool,
    /// Whether to redraw what shows the list.
    pub notify: bool,
    pub task: TaskChange,
}

impl Effects {
    /// Nothing is left to do.
    pub open spec fn nothing() -> Effects {
        Effects { event: None, update: false, notify: false, task: TaskChange::Keep }
    }

    pub(crate) fn none() -> (r: Effects)
        ensures
            r == Effects::nothing(),
    {
        Effects { event: None, update: false, notify: false, task: TaskChange::Keep }
    }
}

/// What changed in a repository.
#[derive(Clone, Copy, Debug, PartialEq, Eq, Structural)]
pub enum RepositoryEvent {
    StatusesChanged,
    HeadChanged,
    Other,
}

/// What changed in the repositories of the project. Repositories are named by their identifier.
#[derive(Clone, Copy, Debug, PartialEq, Eq, Structural)]
pub enum GitStoreEvent {
    ActiveRepositoryChanged(Option<u64>),
    RepositoryUpdated(u64, RepositoryEvent),
    Other,
}

/// What a list reads of its repository when the status changes.
#[derive(Debug)]
pub struct RepositoryState {
    pub branch: Option<Branch>,
    /// The commit that HEAD is at.
    pub head_commit: Option<String>,
}

/// The branch that is checked out.
#[derive(Debug)]
pub struct Branch {
    pub ref_name: String,
    pub most_recent_commit: Option<String>,
}

pub struct RepositoryStateView {
    pub branch: Option<BranchView>,
    pub head_commit: Option<Seq<char>>,
}

pub struct BranchView {
    pub ref_name: Seq<char>,
    pub most_recent_commit: Option<Seq<char>>,
}

impl View for Branch {
    type V = BranchView;

    open spec fn view(&self) -> BranchView {
        BranchView {
            ref_name: self.ref_name@,
            most_recent_commit: text_view(self.most_recent_commit),
        }
    }
}

impl View for RepositoryState {
    type V = RepositoryStateView;

    open spec fn view(&self) -> RepositoryStateView {
        RepositoryStateView {
            branch: match self.branch {
                Some(branch) => Some(branch@),
                None => None,
            },
            head_commit: text_view(self.head_commit),
        }
    }
}

/// A diff that was asked for.
pub enum ReloadedDiff {
    Tree(TreeDiff),
    Comparison(CommitDiff),
}

pub enum ReloadedDiffView {
    Tree(TreeDiffView),
    Comparison(Seq<CommitFileView>),
}

impl View for ReloadedDiff {
    type V = ReloadedDiffView;

    open spec fn view(&self) -> ReloadedDiffView {
        match self {
            ReloadedDiff::Tree(diff) => ReloadedDiffView::Tree(diff@),
            ReloadedDiff::Comparison(diff) => ReloadedDiffView::Comparison(diff@),
        }
    }
}

/// Where the file of a buffer is: its repository, its path there, and its status there, if git
/// reports one.
#[derive(Debug)]
pub struct BufferLocation {
    pub repo: RepositoryRef,
    pub path: RepoPath,
    pub status: Option<ReportedStatus>,
}

/// A file that is listed: its path, its status, and how its buffer is loaded.
#[derive(Debug)]
pub struct DiffBuffer {
    pub repo_path: RepoPath,
    pub file_status: FileStatus,
    pub load: BufferLoad,
}

pub struct DiffBufferView {
    pub repo_path: Seq<char>,
    pub file_status: FileStatus,
    pub load: BufferLoadView,
}

impl View for DiffBuffer {
    type V = DiffBufferView;

    open spec fn view(&self) -> DiffBufferView {
        DiffBufferView {
            repo_path: self.repo_path@,
            file_status: self.file_status,
            load: self.load@,
        }
    }
}

/// The views of listed files.
pub open spec fn buffer_views(buffers: Seq<DiffBuffer>) -> Seq<DiffBufferView> {
    buffers.map_values(|buffer: DiffBuffer| buffer@)
}

/// The views of reported statuses.
pub open spec fn entry_views(entries: Seq<StatusEntry>) -> Seq<StatusEntryView> {
    entries.map_values(|entry: StatusEntry| entry@)
}

/// The task that reloads the diff.
#[derive(Clone, Copy, Debug, PartialEq, Eq, Structural)]
pub struct ReloadTask {
    /// The task has run to its end.
    pub is_ready: bool,
}

} // verus!
