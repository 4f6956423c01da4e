use git_diff_buffers::base::DiffBase;
use git_diff_buffers::diff::{CommitFileStatus, Oid, TreeDiffStatus};
use git_diff_buffers::list::DiffBufferList;
use git_diff_buffers::status::{
    comparison_file_status, diff_status_to_file_status, FileStatus, ReportedStatus, StatusCode,
    TrackedStatus, UnmergedStatus, UnmergedStatusCode,
};

const OLD: Oid = Oid { bytes: [1; 20] };

fn codes(index_status: StatusCode, worktree_status: StatusCode) -> FileStatus {
    FileStatus::TrackedFile(TrackedStatus { index_status, worktree_status })
}

fn report(status: FileStatus, is_deleted: bool) -> ReportedStatus {
    ReportedStatus {
        status,
        is_deleted,
        has_changes: true,
        has_staged: false,
        has_unstaged: true,
    }
}

fn merge(head: Option<ReportedStatus>, base: Option<TreeDiffStatus>) -> Option<FileStatus> {
    let list = DiffBufferList::new(DiffBase::Head, None);
    list.merge_statuses(head, base.as_ref())
}

#[test]
fn comparison_statuses() {
    let cases = [
        (CommitFileStatus::Added, StatusCode::Added),
        (CommitFileStatus::Deleted, StatusCode::Deleted),
        (CommitFileStatus::Renamed, StatusCode::Renamed),
        (CommitFileStatus::Copied, StatusCode::Copied),
        (CommitFileStatus::Modified, StatusCode::Modified),
    ];
    for (status, code) in cases {
        assert_eq!(comparison_file_status(status), codes(code, StatusCode::Unmodified));
    }
}

#[test]
fn tree_statuses() {
    let added = diff_status_to_file_status(&TreeDiffStatus::Added);
    let modified = diff_status_to_file_status(&TreeDiffStatus::Modified { old: OLD });
    let deleted = diff_status_to_file_status(&TreeDiffStatus::Deleted { old: OLD });
    assert_eq!(added, codes(StatusCode::Added, StatusCode::Added));
    assert_eq!(modified, codes(StatusCode::Modified, StatusCode::Modified));
    assert_eq!(deleted, codes(StatusCode::Deleted, StatusCode::Deleted));
}

#[test]
fn one_sided_statuses_are_kept() {
    let changed = codes(StatusCode::Unmodified, StatusCode::TypeChanged);
    assert_eq!(merge(None, None), None);
    assert_eq!(merge(Some(report(changed, false)), None), Some(changed));
    assert_eq!(
        merge(None, Some(TreeDiffStatus::Deleted { old: OLD })),
        Some(codes(StatusCode::Deleted, StatusCode::Deleted))
    );
}

#[test]
fn conflicts_win() {
    let conflict = FileStatus::Unmerged(UnmergedStatus {
        first_head: UnmergedStatusCode::Updated,
        second_head: UnmergedStatusCode::Deleted,
    });
    assert_eq!(
        merge(Some(report(conflict, true)), Some(TreeDiffStatus::Added)),
        Some(conflict)
    );
}

#[test]
fn files_new_since_head_are_modified_against_the_merge_base() {
    let modified = Some(codes(StatusCode::Modified, StatusCode::Modified));
    let added = codes(StatusCode::Added, StatusCode::Deleted);
    let base = Some(TreeDiffStatus::Added);
    assert_eq!(merge(Some(report(FileStatus::Untracked, false)), base), modified);
    assert_eq!(merge(Some(report(added, true)), base), modified);
}

#[test]
fn deleted_files() {
    let deleted = codes(StatusCode::Unmodified, StatusCode::Deleted);
    assert_eq!(merge(Some(report(deleted, true)), Some(TreeDiffStatus::Added)), None);
    assert_eq!(
        merge(Some(report(deleted, true)), Some(TreeDiffStatus::Modified { old: OLD })),
        Some(deleted)
    );
}

#[test]
fn files_in_head_and_work_tree() {
    let changed = codes(StatusCode::Renamed, StatusCode::Modified);
    assert_eq!(
        merge(Some(report(changed, false)), Some(TreeDiffStatus::Added)),
        Some(codes(StatusCode::Added, StatusCode::Added))
    );
    assert_eq!(
        merge(Some(report(changed, false)), Some(TreeDiffStatus::Deleted { old: OLD })),
        Some(codes(StatusCode::Modified, StatusCode::Modified))
    );
}

#[test]
fn ignored_files_take_the_difference_from_the_merge_base() {
    assert_eq!(
        merge(
            Some(report(FileStatus::Ignored, false)),
            Some(TreeDiffStatus::Deleted { old: OLD })
        ),
        Some(codes(StatusCode::Deleted, StatusCode::Deleted))
    );
}
