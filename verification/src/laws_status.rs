//! What the status of a file is, case by case.

use crate::diff::CommitFileStatus;
use crate::diff::Oid;
use crate::diff::TreeDiffStatus;
use crate::diff::TreeDiffView;
use crate::status::comparison_status;
use crate::status::merged_status;
use crate::status::shows_change;
use crate::status::tree_status;
use crate::status::FileStatus;
use crate::status::MergedChanges;
use crate::status::ReportedStatus;
use crate::status::StatusCode;
use crate::status::TrackedStatus;
use vstd::prelude::*;

verus! {

/// A tracked file that HEAD and the work tree have, and that differs from the merge base, is
/// added in the index and in the work tree where the merge base does not have it, and modified
/// in both where the merge base has it.
pub proof fn law_files_in_head_and_work_tree(
    report: ReportedStatus,
    codes: TrackedStatus,
    old: Oid,
)
    requires
        report.status == FileStatus::TrackedFile(codes),
        codes.index_status != StatusCode::Added,
        !report.is_deleted,
    ensures
        merged_status(Some(report), Some(TreeDiffStatus::Added)) == Some(
            FileStatus::TrackedFile(
                TrackedStatus {
                    index_status: StatusCode::Added,
                    worktree_status: StatusCode::Added,
                },
            ),
        ),
        merged_status(Some(report), Some(TreeDiffStatus::Modified { old })) == Some(
            FileStatus::TrackedFile(
                TrackedStatus {
                    index_status: StatusCode::Modified,
                    worktree_status: StatusCode::Modified,
                },
            ),
        ),
        merged_status(Some(report), Some(TreeDiffStatus::Deleted { old })) == Some(
            FileStatus::TrackedFile(
                TrackedStatus {
                    index_status: StatusCode::Modified,
                    worktree_status: StatusCode::Modified,
                },
            ),
        ),
{
}

/// A file that is untracked, or added in the index, and that the merge base's diff knows, is
/// modified in the index and in the work tree, however it differs and whatever else is reported.
pub proof fn law_files_new_since_head(
    report: ReportedStatus,
    code: StatusCode,
    base: TreeDiffStatus,
)
    requires
        report.status == FileStatus::Untracked || report.status == FileStatus::TrackedFile(
            TrackedStatus { index_status: StatusCode::Added, worktree_status: code },
        ),
    ensures
        merged_status(Some(report), Some(base)) == Some(
            FileStatus::TrackedFile(
                TrackedStatus {
                    index_status: StatusCode::Modified,
                    worktree_status: StatusCode::Modified,
                },
            ),
        ),
{
}

/// A file that is gone from the work tree keeps its reported status where the merge base has it,
/// and has none where the merge base does not.
pub proof fn law_files_gone_from_the_work_tree(
    report: ReportedStatus,
    codes: TrackedStatus,
    old: Oid,
)
    requires
        report.is_deleted,
        report.status == FileStatus::Ignored || report.status == FileStatus::TrackedFile(codes)
            && codes.index_status != StatusCode::Added,
    ensures
        merged_status(Some(report), Some(TreeDiffStatus::Added)) == None::<FileStatus>,
        merged_status(Some(report), Some(TreeDiffStatus::Modified { old })) == Some(report.status),
        merged_status(Some(report), Some(TreeDiffStatus::Deleted { old })) == Some(report.status),
{
}

/// Where no status is reported of a file, or it is ignored and in the work tree, its status is
/// the difference from the merge base, on both sides.
pub proof fn law_files_known_by_the_tree_diff(head: Option<ReportedStatus>, old: Oid)
    requires
        head is None || head->0.status == FileStatus::Ignored && !head->0.is_deleted,
    ensures
        merged_status(head, Some(TreeDiffStatus::Added)) == Some(
            FileStatus::TrackedFile(
                TrackedStatus {
                    index_status: StatusCode::Added,
                    worktree_status: StatusCode::Added,
                },
            ),
        ),
        merged_status(head, Some(TreeDiffStatus::Modified { old })) == Some(
            FileStatus::TrackedFile(
                TrackedStatus {
                    index_status: StatusCode::Modified,
                    worktree_status: StatusCode::Modified,
                },
            ),
        ),
        merged_status(head, Some(TreeDiffStatus::Deleted { old })) == Some(
            FileStatus::TrackedFile(
                TrackedStatus {
                    index_status: StatusCode::Deleted,
                    worktree_status: StatusCode::Deleted,
                },
            ),
        ),
{
}

/// Without a difference from the merge base the status is the reported one, and without a
/// report there is none.
pub proof fn law_files_without_a_tree_difference(head: Option<ReportedStatus>)
    ensures
        merged_status(head, None) is Some <==> head is Some,
        head is Some ==> merged_status(head, None) == Some(head->0.status),
{
}

/// A merged status is the reported one, or it has the same code in the index and in the work
/// tree, one of added, modified and deleted. It is the second kind only where the merge base's
/// diff knows the file.
pub proof fn law_merged_statuses_are_reported_or_made_up(
    head: Option<ReportedStatus>,
    base: Option<TreeDiffStatus>,
)
    ensures
        merged_status(head, base) matches Some(found) ==> {
            ||| head is Some && found == head->0.status
            ||| found matches FileStatus::TrackedFile(codes) && {
                &&& base is Some
                &&& codes.index_status == codes.worktree_status
                &&& {
                    ||| codes.index_status == StatusCode::Added
                    ||| codes.index_status == StatusCode::Modified
                    ||| codes.index_status == StatusCode::Deleted
                }
            }
        },
{
}

/// How a file differs from the merge base is its status on both sides.
pub proof fn law_tree_difference_statuses(old: Oid)
    ensures
        tree_status(TreeDiffStatus::Added) == FileStatus::TrackedFile(
            TrackedStatus { index_status: StatusCode::Added, worktree_status: StatusCode::Added },
        ),
        tree_status(TreeDiffStatus::Modified { old }) == FileStatus::TrackedFile(
            TrackedStatus {
                index_status: StatusCode::Modified,
                worktree_status: StatusCode::Modified,
            },
        ),
        tree_status(TreeDiffStatus::Deleted { old }) == FileStatus::TrackedFile(
            TrackedStatus {
                index_status: StatusCode::Deleted,
                worktree_status: StatusCode::Deleted,
            },
        ),
{
}

/// A file of a comparison has its status of the comparison in the index, and is unmodified in
/// the work tree.
pub proof fn law_comparison_statuses(status: CommitFileStatus)
    ensures
        comparison_status(status) matches FileStatus::TrackedFile(codes) && {
            &&& codes.worktree_status == StatusCode::Unmodified
            &&& status == CommitFileStatus::Added <==> codes.index_status == StatusCode::Added
            &&& status == CommitFileStatus::Deleted <==> codes.index_status == StatusCode::Deleted
            &&& status == CommitFileStatus::Renamed <==> codes.index_status == StatusCode::Renamed
            &&& status == CommitFileStatus::Copied <==> codes.index_status == StatusCode::Copied
            &&& status == CommitFileStatus::Modified <==> codes.index_status
                == StatusCode::Modified
        },
{
}

/// Of the reported status the report says whether it has changes, whatever the backend says of
/// merged ones. Of any other status that is added, modified or deleted on both sides the backend
/// says so, whatever the report says.
pub proof fn law_who_says_what_has_changes(
    report: ReportedStatus,
    changes: MergedChanges,
    code: StatusCode,
)
    ensures
        shows_change(report, changes, report.status) == report.has_changes,
        ({
            let found = FileStatus::TrackedFile(
                TrackedStatus { index_status: code, worktree_status: code },
            );
            found != report.status ==> {
                &&& code == StatusCode::Added ==> shows_change(report, changes, found)
                    == changes.added
                &&& code == StatusCode::Modified ==> shows_change(report, changes, found)
                    == changes.modified
                &&& code == StatusCode::Deleted ==> shows_change(report, changes, found)
                    == changes.deleted
            }
        }),
{
}

/// A difference names the old contents exactly where the merge base has the file.
pub proof fn law_old_contents(old: Oid)
    ensures
        TreeDiffStatus::Added.old_contents() is None,
        (TreeDiffStatus::Modified { old }).old_contents() == Some(old),
        (TreeDiffStatus::Deleted { old }).old_contents() == Some(old),
{
}

/// A tree diff has an entry for a path exactly where one is recorded, and what is recorded of a
/// new path is walked last. What is recorded again keeps its place.
pub proof fn law_tree_diff_order(
    diff: TreeDiffView,
    path: Seq<char>,
    status: TreeDiffStatus,
    i: int,
)
    ensures
        diff.get(path) is Some <==> diff.entries.contains_key(path),
        diff.get(path) is Some ==> diff.get(path) == Some(diff.entries[path]),
        diff.get(path) is Some ==> diff.insert(path, status).paths == diff.paths,
        diff.get(path) is None ==> {
            let after = diff.insert(path, status).paths;
            &&& after.len() == diff.paths.len() + 1
            &&& after[diff.paths.len() as int] == path
            &&& 0 <= i < diff.paths.len() ==> after[i] == diff.paths[i]
        },
{
}

/// The paths of a valid tree diff are those with an entry, each once.
pub proof fn law_tree_diff_paths(diff: TreeDiffView, path: Seq<char>, i: int, j: int)
    requires
        diff.wf(),
    ensures
        (exists|k: int| 0 <= k < diff.paths.len() && diff.paths[k] == path)
            <==> diff.entries.contains_key(path),
        0 <= i < j < diff.paths.len() ==> diff.paths[i] != diff.paths[j],
{
    assert(diff.paths.contains(path) <==> diff.entries.contains_key(path));
}

} // verus!
