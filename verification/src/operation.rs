//! Git operations that can stop half-way (merge, rebase, cherry-pick, revert), their state and
//! their outcome.

use crate::path::RepoPath;
use vstd::prelude::*;

verus! {

/// Which of the operations one is.
#[derive(Clone, Copy, Debug, PartialEq, Eq, Structural)]
pub enum GitOperationKind {
    Merge,
    Rebase,
    CherryPick,
    Revert,
}

impl GitOperationKind {
    /// The name of the operation, as the git command line has it.
    pub open spec fn name(self) -> Seq<char> {
        match self {
            GitOperationKind::Merge => "merge"@,
            GitOperationKind::Rebase => "rebase"@,
            GitOperationKind::CherryPick => "cherry-pick"@,
            GitOperationKind::Revert => "revert"@,
        }
    }

    /// The name of the operation, for messages.
    pub fn to_string(&self) -> (r: String)
        ensures
            r@ == self.name(),
    {
        match self {
            GitOperationKind::Merge => "merge".to_owned(),
            GitOperationKind::Rebase => "rebase".to_owned(),
            GitOperationKind::CherryPick => "cherry-pick".to_owned(),
            GitOperationKind::Revert => "revert".to_owned(),
        }
    }
}

/// How to go on with an operation that has stopped.
#[derive(Clone, Copy, Debug, PartialEq, Eq, Structural)]
pub enum GitOperationAction {
    Continue,
    Skip,
    Abort,
}

/// What an operation waits for.
#[derive(Clone, Copy, Debug, PartialEq, Eq, Structural)]
pub enum GitOperationInput {
    ResolveConflicts,
    CommitMessage,
    EditRebasePlan,
}

/// How far an operation of several steps has come.
#[derive(Clone, Copy, Debug, PartialEq, Eq, Structural)]
pub struct GitOperationProgress {
    pub current: usize,
    pub total: usize,
}

/// An operation under way.
#[derive(Clone, Debug, PartialEq, Eq)]
pub struct GitOperationState {
    pub kind: GitOperationKind,
    pub progress: Option<GitOperationProgress>,
    pub conflicts: Vec<RepoPath>,
    pub required_input: Option<GitOperationInput>,
    pub available_actions: Vec<GitOperationAction>,
    pub original_head: Option<String>,
    pub target: Option<String>,
}

/// What is known of the repository before an operation starts.
#[derive(Clone, Debug, PartialEq, Eq)]
pub struct GitOperationPreflight {
    pub dirty_worktree: bool,
    pub staged_changes: bool,
    pub detached_head: bool,
    pub operation: Option<GitOperationState>,
}

/// An operation to start.
#[derive(Clone, Debug, PartialEq, Eq)]
pub enum GitOperation {
    Merge { commit: String, no_commit: bool },
    Rebase { upstream: String },
    CherryPick { commits: Vec<String> },
    Revert { commits: Vec<String>, no_commit: bool },
}

impl GitOperation {
    /// Which of the operations this is.
    pub fn kind(&self) -> (r: GitOperationKind)
        ensures
            r == (match *self {
                GitOperation::Merge { .. } => GitOperationKind::Merge,
                GitOperation::Rebase { .. } => GitOperationKind::Rebase,
                GitOperation::CherryPick { .. } => GitOperationKind::CherryPick,
                GitOperation::Revert { .. } => GitOperationKind::Revert,
            }),
    {
        match self {
            GitOperation::Merge { .. } => GitOperationKind::Merge,
            GitOperation::Rebase { .. } => GitOperationKind::Rebase,
            GitOperation::CherryPick { .. } => GitOperationKind::CherryPick,
            GitOperation::Revert { .. } => GitOperationKind::Revert,
        }
    }
}

/// Why an operation failed.
#[derive(Clone, Copy, Debug, PartialEq, Eq, Structural)]
pub enum GitOperationErrorCode {
    OperationInProgress,
    NoOperationInProgress,
    DirtyWorktree,
    DetachedHead,
    Conflicts,
    InvalidRequest,
    ProcessFailed,
    UnsupportedAction,
}

/// A failed operation.
#[derive(Clone, Debug, PartialEq, Eq)]
pub struct GitOperationError {
    pub code: GitOperationErrorCode,
    pub message: String,
    pub stderr: String,
    pub state: Option<Box<GitOperationState>>,
}

impl GitOperationError {
    /// The error as shown to a user: its message alone.
    pub fn to_string(&self) -> (r: String)
        ensures
            r@ == self.message@,
    {
        self.message.clone()
    }
}

/// What became of an operation.
#[derive(Clone, Debug, PartialEq, Eq)]
pub enum GitOperationOutcome {
    Completed,
    InProgress(GitOperationState),
}

pub type GitOperationResult = Result<GitOperationOutcome, GitOperationError>;

} // verus!
