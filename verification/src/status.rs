//! The status of a file: as git reports it against HEAD, against a merge base, and the two
//! taken together.

use crate::diff::CommitFileStatus;
use crate::diff::TreeDiffStatus;
use crate::path::RepoPath;
use vstd::prelude::*;

verus! {

/// What happened to a file between HEAD and the index, or between the index and the work tree.
#[derive(Clone, Copy, Debug, PartialEq, Eq, Structural)]
pub enum StatusCode {
    Modified,
    TypeChanged,
    Added,
    Deleted,
    Renamed,
    Copied,
    Unmodified,
}

/// The status of a file that git tracks and that has no conflict.
#[derive(Clone, Copy, Debug, PartialEq, Eq, Structural)]
pub struct TrackedStatus {
    pub index_status: StatusCode,
    pub worktree_status: StatusCode,
}

/// What one side of a merge did to a file in conflict.
#[derive(Clone, Copy, Debug, PartialEq, Eq, Structural)]
pub enum UnmergedStatusCode {
    Added,
    Deleted,
    Updated,
}

/// The status of a file in conflict.
#[derive(Clone, Copy, Debug, PartialEq, Eq, Structural)]
pub struct UnmergedStatus {
    pub first_head: UnmergedStatusCode,
    pub second_head: UnmergedStatusCode,
}

/// The status of a file.
#[derive(Clone, Copy, Debug, PartialEq, Eq, Structural)]
pub enum FileStatus {
    Untracked,
    Ignored,
    Unmerged(UnmergedStatus),
    TrackedFile(TrackedStatus),
}

/// The status of a file against HEAD, with what the git backend that reported it says of it.
#[derive(Clone, Copy, Debug, PartialEq, Eq, Structural)]
pub struct ReportedStatus {
    pub status: FileStatus,
    /// HEAD has the file and the work tree does not.
    pub is_deleted: bool,
    /// The file has a change to show.
    pub has_changes: bool,
    /// Some of the changes are in the index.
    pub has_staged: bool,
    /// Some of the changes are not in the index.
    pub has_unstaged: bool,
}

/// Whether the git backend says of a file that it has changes, for each status that a merge of
/// statuses makes up: the same code in the index and in the work tree.
#[derive(Clone, Copy, Debug, PartialEq, Eq, Structural)]
pub struct MergedChanges {
    pub added: bool,
    pub modified: bool,
    pub deleted: bool,
}

/// A path of a repository and its status against HEAD.
#[derive(Debug)]
pub struct StatusEntry {
    pub repo_path: RepoPath,
    pub status: ReportedStatus,
}

pub struct StatusEntryView {
    pub repo_path: Seq<char>,
    pub status: ReportedStatus,
}

impl View for StatusEntry {
    type V = StatusEntryView;

    open spec fn view(&self) -> StatusEntryView {
        StatusEntryView { repo_path: self.repo_path@, status: self.status }
    }
}

/// A tracked file with the same code in the index and in the work tree.
pub open spec fn tracked_both(code: StatusCode) -> FileStatus {
    FileStatus::TrackedFile(TrackedStatus { index_status: code, worktree_status: code })
}

/// The status that stands for how a file differs between the two sides of a comparison.
pub open spec fn comparison_status(status: CommitFileStatus) -> FileStatus {
    FileStatus::TrackedFile(
        TrackedStatus {
            index_status: match status {
                CommitFileStatus::Added => StatusCode::Added,
                CommitFileStatus::Deleted => StatusCode::Deleted,
                CommitFileStatus::Renamed => StatusCode::Renamed,
                CommitFileStatus::Copied => StatusCode::Copied,
                CommitFileStatus::Modified => StatusCode::Modified,
            },
            worktree_status: StatusCode::Unmodified,
        },
    )
}

/// The status that stands for how a file differs from the merge base.
pub open spec fn tree_status(status: TreeDiffStatus) -> FileStatus {
    match status {
        TreeDiffStatus::Added => tracked_both(StatusCode::Added),
        TreeDiffStatus::Modified { .. } => tracked_both(StatusCode::Modified),
        TreeDiffStatus::Deleted { .. } => tracked_both(StatusCode::Deleted),
    }
}

/// The file is new since HEAD: it is untracked, or it was added to the index.
pub open spec fn new_since_head(status: FileStatus) -> bool {
    ||| status is Untracked
    ||| status matches FileStatus::TrackedFile(codes) && codes.index_status is Added
}

/// The status of a file against the merge base, from its status against HEAD and from how the
/// trees differ. `None` where the file is the same in the merge base and in the work tree.
pub open spec fn merged_status(
    head: Option<ReportedStatus>,
    base: Option<TreeDiffStatus>,
) -> Option<FileStatus> {
    match (head, base) {
        (None, None) => None,
        (None, Some(tree)) => Some(tree_status(tree)),
        (Some(report), None) => Some(report.status),
        (Some(report), Some(tree)) => {
            if report.status is Unmerged {
                Some(report.status)
            } else if new_since_head(report.status) {
                Some(tracked_both(StatusCode::Modified))
            } else if report.is_deleted {
                if tree is Added {
                    None
                } else {
                    Some(report.status)
                }
            } else if report.status is TrackedFile {
                Some(
                    tracked_both(
                        if tree is Added {
                            StatusCode::Added
                        } else {
                            StatusCode::Modified
                        },
                    ),
                )
            } else {
                Some(tree_status(tree))
            }
        },
    }
}

/// Whether a status found for a reported file shows a change. Of the reported status itself the
/// report says so. Any other is one that the merge made up, added, modified or deleted on both
/// sides, and of each of these the backend says so.
pub open spec fn shows_change(
    report: ReportedStatus,
    changes: MergedChanges,
    found: FileStatus,
) -> bool {
    if found == report.status {
        report.has_changes
    } else if found == tracked_both(StatusCode::Added) {
        changes.added
    } else if found == tracked_both(StatusCode::Deleted) {
        changes.deleted
    } else {
        changes.modified
    }
}

/// The status of a file in a comparison.
pub fn comparison_file_status(status: CommitFileStatus) -> (r: FileStatus)
    ensures
        r == comparison_status(status),
{
    let status = match status {
        CommitFileStatus::Added => StatusCode::Added,
        CommitFileStatus::Deleted => StatusCode::Deleted,
        CommitFileStatus::Renamed => StatusCode::Renamed,
        CommitFileStatus::Copied => StatusCode::Copied,
        CommitFileStatus::Modified => StatusCode::Modified,
    };
    FileStatus::TrackedFile(
        TrackedStatus { index_status: status, worktree_status: StatusCode::Unmodified },
    )
}

/// The status of a file of which only the difference from the merge base is known.
pub fn diff_status_to_file_status(branch_diff: &TreeDiffStatus) -> (r: FileStatus)
    ensures
        r == tree_status(*branch_diff),
{
    match branch_diff {
        TreeDiffStatus::Added => FileStatus::TrackedFile(
            TrackedStatus { index_status: StatusCode::Added, worktree_status: StatusCode::Added },
        ),
        TreeDiffStatus::Modified { .. } => FileStatus::TrackedFile(
            TrackedStatus {
                index_status: StatusCode::Modified,
                worktree_status: StatusCode::Modified,
            },
        ),
        TreeDiffStatus::Deleted { .. } => FileStatus::TrackedFile(
            TrackedStatus {
                index_status: StatusCode::Deleted,
                worktree_status: StatusCode::Deleted,
            },
        ),
    }
}

/// Whether a status found for a reported file shows a change.
pub(crate) fn has_change_to_show(
    report: ReportedStatus,
    changes: MergedChanges,
    found: FileStatus,
) -> (r: bool)
    ensures
        r == shows_change(report, changes, found),
{
    if found == report.status {
        return report.has_changes;
    }
    match found {
        FileStatus::TrackedFile(
            TrackedStatus { index_status: StatusCode::Added, worktree_status: StatusCode::Added },
        ) => changes.added,
        FileStatus::TrackedFile(
            TrackedStatus {
                index_status: StatusCode::Deleted,
                worktree_status: StatusCode::Deleted,
            },
        ) => changes.deleted,
        _ => changes.modified,
    }
}

/// Takes the status against HEAD and the difference from the merge base together.
pub(crate) fn merge(
    diff_from_head: Option<ReportedStatus>,
    diff_from_merge_base: Option<&TreeDiffStatus>,
) -> (r: Option<FileStatus>)
    ensures
        r == merged_status(
            diff_from_head,
            match diff_from_merge_base {
                Some(tree) => Some(*tree),
                None => None,
            },
        ),
{
    match (diff_from_head, diff_from_merge_base) {
        (None, None) => None,
        (Some(report), None) => Some(report.status),
        (None, Some(tree)) => Some(diff_status_to_file_status(tree)),
        (Some(report), Some(tree)) => match report.status {
            FileStatus::Unmerged(_) => Some(report.status),
            // new since HEAD, and different from the merge base
            FileStatus::Untracked | FileStatus::TrackedFile(
                TrackedStatus { index_status: StatusCode::Added, worktree_status: _ },
            ) => Some(
                FileStatus::TrackedFile(
                    TrackedStatus {
                        index_status: StatusCode::Modified,
                        worktree_status: StatusCode::Modified,
                    },
                ),
            ),
            // in HEAD, not in the work tree
            _ if report.is_deleted => match tree {
                TreeDiffStatus::Added => None,
                _ => Some(report.status),
            },
            // in HEAD, in the work tree
            FileStatus::TrackedFile(_) => {
                let code = match tree {
                    TreeDiffStatus::Added => StatusCode::Added,
                    _ => StatusCode::Modified,
                };
                Some(FileStatus::TrackedFile(TrackedStatus { index_status: code, worktree_status: code }))
            },
            FileStatus::Ignored => Some(diff_status_to_file_status(tree)),
        },
    }
}

} // verus!
