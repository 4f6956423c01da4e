//! Which files a list shows, with which status and load, and in which order.

use crate::base::ComparisonTargetView;
use crate::base::DiffBaseView;
use crate::base::RepositoryRef;
use crate::diff::CommitFileView;
use crate::diff::TreeDiffStatus;
use crate::diff::TreeDiffView;
use crate::event::DiffBufferView;
use crate::laws_load::is_comparison_start;
use crate::laws_load::is_worktree_start;
use crate::model::comparison_buffer;
use crate::model::is_reported;
use crate::model::DiffBufferListView;
use crate::path::ProjectPathView;
use crate::select::lemma_select_contains;
use crate::select::lemma_select_step;
use crate::select::select;
use crate::status::comparison_status;
use crate::status::merged_status;
use crate::status::FileStatus;
use crate::status::MergedChanges;
use crate::status::ReportedStatus;
use crate::status::StatusCode;
use crate::status::StatusEntryView;
use crate::status::TrackedStatus;
use vstd::prelude::*;

verus! {

/// How a path differs from the merge base, as far as the list has a tree diff.
pub open spec fn tree_difference(list: DiffBufferListView, path: Seq<char>) -> Option<
    TreeDiffStatus,
> {
    if list.tree_diff is Some && list.tree_diff->0.entries.contains_key(path) {
        Some(list.tree_diff->0.entries[path])
    } else {
        None
    }
}

/// A file has this code in the index and in the work tree.
pub open spec fn is_on_both_sides(status: FileStatus, code: StatusCode) -> bool {
    status == FileStatus::TrackedFile(
        TrackedStatus { index_status: code, worktree_status: code },
    )
}

/// A file with a reported status has a change to show on the base of the list. The index and the
/// staged changes ask the report. HEAD and the merge base ask the report where the merged status
/// is the reported one, and the backend where it is another.
pub open spec fn has_listed_change(
    list: DiffBufferListView,
    changes: MergedChanges,
    entry: StatusEntryView,
) -> bool {
    let report = entry.status;
    match list.diff_base {
        DiffBaseView::Index => report.has_unstaged && report.has_changes,
        DiffBaseView::Staged => report.has_staged && report.has_changes,
        DiffBaseView::Comparison { base: _, target: _ } => false,
        _ => match merged_status(Some(report), tree_difference(list, entry.repo_path)) {
            None => false,
            Some(found) => {
                &&& found == report.status ==> report.has_changes
                &&& found != report.status ==> {
                    ||| is_on_both_sides(found, StatusCode::Added) && changes.added
                    ||| is_on_both_sides(found, StatusCode::Modified) && changes.modified
                    ||| is_on_both_sides(found, StatusCode::Deleted) && changes.deleted
                }
            },
        },
    }
}

/// Without a repository nothing is listed, nor while the diff that the base needs is not there.
pub proof fn law_nothing_to_list(
    list: DiffBufferListView,
    entries: Seq<StatusEntryView>,
    changes: MergedChanges,
    paths: Map<Seq<char>, ProjectPathView>,
)
    requires
        list.repo is None || list.diff_base is Merge && list.tree_diff is None || list.diff_base
            is Comparison && list.comparison_diff is None,
    ensures
        list.buffers(entries, changes, paths).len() == 0,
{
}

/// One more reported status adds its file to the end of what the reports list, where it has a
/// change to show and the project holds the file, and else nothing. The file has its reported
/// status and is loaded for the base. Without reports nothing is listed.
pub proof fn law_reports_are_listed_in_order(
    list: DiffBufferListView,
    repo: RepositoryRef,
    entries: Seq<StatusEntryView>,
    entry: StatusEntryView,
    changes: MergedChanges,
    paths: Map<Seq<char>, ProjectPathView>,
)
    requires
        list.repo == Some(repo),
        !(list.diff_base is Comparison),
        list.diff_base is Merge ==> list.tree_diff is Some,
        list.tree_diff is Some ==> list.tree_diff->0.paths.len() == 0,
    ensures
        list.buffers(Seq::empty(), changes, paths).len() == 0,
        ({
            let before = list.buffers(entries, changes, paths);
            let after = list.buffers(entries.push(entry), changes, paths);
            if has_listed_change(list, changes, entry) && paths.contains_key(entry.repo_path) {
                &&& after.len() == before.len() + 1
                &&& after.drop_last() == before
                &&& after.last().repo_path == entry.repo_path
                &&& after.last().file_status == entry.status.status
                &&& is_worktree_start(
                    after.last().load,
                    list.diff_base,
                    tree_difference(list, entry.repo_path),
                    paths[entry.repo_path],
                    repo,
                )
            } else {
                after == before
            }
        }),
{
    let all = entries.push(entry);
    let none = Seq::<StatusEntryView>::empty();
    let pick = |e: StatusEntryView| list.status_buffer(repo, changes, paths, e);
    lemma_select_step(all, pick, entries.len() as int);
    assert(all.take(entries.len() as int) =~= entries);
    assert(all.take(all.len() as int) =~= all);
    assert(none.map_values(pick) =~= Seq::<Option<DiffBufferView>>::empty());
    assert(list.tree_buffers(repo, paths, entries) =~= Seq::<DiffBufferView>::empty()) by {
        lemma_no_tree_paths(list, repo, paths, entries);
    }
    assert(list.tree_buffers(repo, paths, all) =~= Seq::<DiffBufferView>::empty()) by {
        lemma_no_tree_paths(list, repo, paths, all);
    }
    assert(list.tree_buffers(repo, paths, none) =~= Seq::<DiffBufferView>::empty()) by {
        lemma_no_tree_paths(list, repo, paths, none);
    }
    assert(list.buffers(entries, changes, paths) =~= select(entries, pick));
    assert(list.buffers(all, changes, paths) =~= select(all, pick));
    assert(list.buffers(none, changes, paths) =~= select(none, pick));
}

proof fn lemma_no_tree_paths(
    list: DiffBufferListView,
    repo: RepositoryRef,
    paths: Map<Seq<char>, ProjectPathView>,
    entries: Seq<StatusEntryView>,
)
    requires
        list.tree_diff is Some ==> list.tree_diff->0.paths.len() == 0,
    ensures
        list.tree_buffers(repo, paths, entries).len() == 0,
{
    let pick = |path: Seq<char>| list.tree_buffer(repo, paths, entries, path);
    if let Some(diff) = list.tree_diff {
        assert(diff.paths.map_values(pick) =~= Seq::<Option<DiffBufferView>>::empty());
    }
}

/// One more path of the tree diff adds its file to the end of the list, where no status is
/// reported of it and the project holds the file, and else nothing. The file has the status of
/// its difference from the merge base and is loaded for the base.
pub proof fn law_tree_paths_are_listed_in_order(
    list: DiffBufferListView,
    repo: RepositoryRef,
    diff: TreeDiffView,
    path: Seq<char>,
    entries: Seq<StatusEntryView>,
    changes: MergedChanges,
    paths: Map<Seq<char>, ProjectPathView>,
)
    requires
        list.repo == Some(repo),
        !(list.diff_base is Comparison),
        list.tree_diff == Some(diff),
    ensures
        ({
            let longer = DiffBufferListView {
                tree_diff: Some(
                    TreeDiffView { paths: diff.paths.push(path), entries: diff.entries },
                ),
                ..list
            };
            let before = list.buffers(entries, changes, paths);
            let after = longer.buffers(entries, changes, paths);
            if diff.entries.contains_key(path) && paths.contains_key(path) && (forall|i: int|
                0 <= i < entries.len() ==> (#[trigger] entries[i]).repo_path != path) {
                let status = after.last().file_status;
                &&& after.len() == before.len() + 1
                &&& after.drop_last() == before
                &&& after.last().repo_path == path
                &&& match diff.entries[path] {
                    TreeDiffStatus::Added => is_on_both_sides(status, StatusCode::Added),
                    TreeDiffStatus::Modified { old: _ } => is_on_both_sides(
                        status,
                        StatusCode::Modified,
                    ),
                    TreeDiffStatus::Deleted { old: _ } => is_on_both_sides(
                        status,
                        StatusCode::Deleted,
                    ),
                }
                &&& is_worktree_start(
                    after.last().load,
                    list.diff_base,
                    Some(diff.entries[path]),
                    paths[path],
                    repo,
                )
            } else {
                after == before
            }
        }),
{
    let all = diff.paths.push(path);
    let longer = DiffBufferListView {
        tree_diff: Some(TreeDiffView { paths: all, entries: diff.entries }),
        ..list
    };
    let pick = |p: Seq<char>| list.tree_buffer(repo, paths, entries, p);
    let pick_longer = |p: Seq<char>| longer.tree_buffer(repo, paths, entries, p);
    assert forall|p: Seq<char>| #[trigger] pick(p) == pick_longer(p) by {}
    assert(pick =~= pick_longer);
    let keep = |e: StatusEntryView| list.status_buffer(repo, changes, paths, e);
    let keep_longer = |e: StatusEntryView| longer.status_buffer(repo, changes, paths, e);
    assert forall|e: StatusEntryView| #[trigger] keep(e) == keep_longer(e) by {}
    assert(keep =~= keep_longer);
    lemma_select_step(all, pick, diff.paths.len() as int);
    assert(all.take(diff.paths.len() as int) =~= diff.paths);
    assert(all.take(all.len() as int) =~= all);
    let head = select(entries, keep);
    let tail = select(diff.paths, pick);
    let longer_tail = select(all, pick);
    assert(list.buffers(entries, changes, paths) == head + tail);
    assert(longer.buffers(entries, changes, paths) == head + longer_tail);
    if let Some(value) = pick(path) {
        assert(longer_tail == tail.push(value));
        assert((head + longer_tail).drop_last() =~= head + tail);
        assert((head + longer_tail).last() == value);
    }
}

/// One more file of a comparison adds it to the end of the list, where the project holds the
/// file, and else nothing. Reported statuses add nothing.
pub proof fn law_compared_files_are_listed_in_order(
    list: DiffBufferListView,
    repo: RepositoryRef,
    files: Seq<CommitFileView>,
    file: CommitFileView,
    entries: Seq<StatusEntryView>,
    changes: MergedChanges,
    paths: Map<Seq<char>, ProjectPathView>,
)
    requires
        list.repo == Some(repo),
        list.diff_base is Comparison,
        list.comparison_diff == Some(files),
    ensures
        ({
            let longer = DiffBufferListView { comparison_diff: Some(files.push(file)), ..list };
            let before = list.buffers(entries, changes, paths);
            let after = longer.buffers(entries, changes, paths);
            &&& files.len() == 0 ==> before.len() == 0
            &&& if paths.contains_key(file.path) {
                &&& after.len() == before.len() + 1
                &&& after.drop_last() == before
                &&& after.last().repo_path == file.path
                &&& after.last().file_status == comparison_status(file.status)
                &&& is_comparison_start(
                    after.last().load,
                    list.diff_base->target,
                    file,
                    paths[file.path],
                    repo,
                )
            } else {
                after == before
            }
        }),
{
    let all = files.push(file);
    let target = list.diff_base->target;
    let pick = |f: CommitFileView| comparison_buffer(target, repo, paths, f);
    lemma_select_step(all, pick, files.len() as int);
    assert(all.take(files.len() as int) =~= files);
    assert(all.take(all.len() as int) =~= all);
    if files.len() == 0 {
        assert(files.map_values(pick) =~= Seq::<Option<DiffBufferView>>::empty());
    }
    if let Some(value) = pick(file) {
        assert(select(files, pick).push(value).drop_last() =~= select(files, pick));
    }
}

/// Each file listed of a comparison is one that the comparison has and the project holds. It is
/// loaded for the target of the list's own base, in the list's repository and where the project
/// holds it, and has its status of the comparison in the index.
pub proof fn law_compared_files_are_loaded_for_the_target(
    list: DiffBufferListView,
    repo: RepositoryRef,
    base: Seq<char>,
    target: ComparisonTargetView,
    files: Seq<CommitFileView>,
    entries: Seq<StatusEntryView>,
    changes: MergedChanges,
    paths: Map<Seq<char>, ProjectPathView>,
    k: int,
)
    requires
        list.repo == Some(repo),
        list.diff_base == (DiffBaseView::Comparison { base, target }),
        list.comparison_diff == Some(files),
        0 <= k < list.buffers(entries, changes, paths).len(),
    ensures
        exists|i: int|
            {
                let buffer = list.buffers(entries, changes, paths)[k];
                &&& 0 <= i < files.len()
                &&& buffer.repo_path == (#[trigger] files[i]).path
                &&& buffer.file_status == comparison_status(files[i].status)
                &&& paths.contains_key(files[i].path)
                &&& is_comparison_start(
                    buffer.load,
                    target,
                    files[i],
                    paths[files[i].path],
                    repo,
                )
            },
{
    let pick = |f: CommitFileView| comparison_buffer(target, repo, paths, f);
    let buffers = list.buffers(entries, changes, paths);
    assert(buffers == select(files, pick));
    assert(buffers.contains(buffers[k]));
    lemma_select_contains(files, pick, buffers[k]);
    let i = choose|i: int| 0 <= i < files.len() && pick(#[trigger] files[i]) == Some(buffers[k]);
    assert(is_comparison_start(buffers[k].load, target, files[i], paths[files[i].path], repo));
}

/// Each file that is listed on another base is loaded for that base, in the list's repository
/// and where the project holds it. It has its reported status, or, where none is reported, the
/// status that a buffer on it has.
pub proof fn law_listed_files_are_loaded_for_the_base(
    list: DiffBufferListView,
    repo: RepositoryRef,
    entries: Seq<StatusEntryView>,
    changes: MergedChanges,
    paths: Map<Seq<char>, ProjectPathView>,
    k: int,
)
    requires
        list.repo == Some(repo),
        !(list.diff_base is Comparison),
        0 <= k < list.buffers(entries, changes, paths).len(),
    ensures
        ({
            let buffer = list.buffers(entries, changes, paths)[k];
            let tree = tree_difference(list, buffer.repo_path);
            &&& paths.contains_key(buffer.repo_path)
            &&& is_worktree_start(
                buffer.load,
                list.diff_base,
                tree,
                paths[buffer.repo_path],
                repo,
            )
            &&& {
                ||| exists|i: int|
                    0 <= i < entries.len() && (#[trigger] entries[i]).repo_path == buffer.repo_path
                        && entries[i].status.status == buffer.file_status && has_listed_change(
                        list,
                        changes,
                        entries[i],
                    )
                ||| {
                    &&& forall|i: int|
                        0 <= i < entries.len() ==> (#[trigger] entries[i]).repo_path
                            != buffer.repo_path
                    &&& tree is Some
                    &&& list.buffer_status(repo, buffer.repo_path, None) == Some(
                        buffer.file_status,
                    )
                }
            }
        }),
{
    let buffers = list.buffers(entries, changes, paths);
    let buffer = buffers[k];
    let head = list.status_buffers(repo, changes, paths, entries);
    let tail = list.tree_buffers(repo, paths, entries);
    assert(buffers == head + tail);
    if k < head.len() {
        let keep = |e: StatusEntryView| list.status_buffer(repo, changes, paths, e);
        assert(head.contains(head[k]));
        lemma_select_contains(entries, keep, buffer);
        let i = choose|i: int| 0 <= i < entries.len() && keep(#[trigger] entries[i]) == Some(buffer);
        assert(has_listed_change(list, changes, entries[i]));
    } else {
        let diff = list.tree_diff->0;
        let pick = |p: Seq<char>| list.tree_buffer(repo, paths, entries, p);
        assert(tail.contains(tail[k - head.len()]));
        lemma_select_contains(diff.paths, pick, buffer);
        let i = choose|i: int|
            0 <= i < diff.paths.len() && pick(#[trigger] diff.paths[i]) == Some(buffer);
        assert(!is_reported(entries, buffer.repo_path));
    }
}

/// The files that may be listed: those of the comparison, or those reported followed by those of
/// the tree diff, each in its order.
pub proof fn law_candidates(list: DiffBufferListView, entries: Seq<StatusEntryView>, i: int)
    ensures
        !(list.diff_base is Comparison) ==> {
            let count: nat = if list.tree_diff is Some {
                list.tree_diff->0.paths.len()
            } else {
                0
            };
            &&& list.candidates(entries).len() == entries.len() + count
            &&& 0 <= i < entries.len() ==> list.candidates(entries)[i] == entries[i].repo_path
            &&& 0 <= i < count ==> list.candidates(entries)[entries.len() + i]
                == list.tree_diff->0.paths[i]
        },
        list.diff_base is Comparison ==> {
            let count: nat = if list.comparison_diff is Some {
                list.comparison_diff->0.len()
            } else {
                0
            };
            &&& list.candidates(entries).len() == count
            &&& 0 <= i < count ==> list.candidates(entries)[i] == list.comparison_diff->0[i].path
        },
{
}

/// The status of a buffer in the list's repository is the merge of its reported status, if any,
/// with the tree difference of its path, if any. A buffer of another repository has none, nor
/// has any buffer where the list has no repository.
pub proof fn law_buffer_status(
    list: DiffBufferListView,
    repo: RepositoryRef,
    path: Seq<char>,
    status: Option<ReportedStatus>,
)
    ensures
        list.repo is Some && list.repo->0.entity_id == repo.entity_id ==> list.buffer_status(
            repo,
            path,
            status,
        ) == merged_status(status, tree_difference(list, path)),
        list.repo is None || list.repo->0.entity_id != repo.entity_id ==> list.buffer_status(
            repo,
            path,
            status,
        ) is None,
{
}

/// A buffer in the list's repository without a reported status has the status of the tree
/// difference of its path, on both sides, and none where the path has no tree difference.
pub proof fn law_unreported_buffer_status(
    list: DiffBufferListView,
    own: RepositoryRef,
    repo: RepositoryRef,
    diff: TreeDiffView,
    path: Seq<char>,
)
    requires
        list.repo == Some(own),
        own.entity_id == repo.entity_id,
        list.tree_diff == Some(diff),
    ensures
        ({
            let found = list.buffer_status(repo, path, None);
            if diff.entries.contains_key(path) {
                &&& found is Some
                &&& match diff.entries[path] {
                    TreeDiffStatus::Added => is_on_both_sides(found->0, StatusCode::Added),
                    TreeDiffStatus::Modified { old: _ } => is_on_both_sides(
                        found->0,
                        StatusCode::Modified,
                    ),
                    TreeDiffStatus::Deleted { old: _ } => is_on_both_sides(
                        found->0,
                        StatusCode::Deleted,
                    ),
                }
            } else {
                found is None
            }
        }),
{
}

/// A reported file that the tree diff does not know, or that is in conflict, has its reported
/// status.
pub proof fn law_buffer_status_of_reported_files(
    list: DiffBufferListView,
    repo: RepositoryRef,
    path: Seq<char>,
    report: ReportedStatus,
)
    requires
        list.repo == Some(repo),
        tree_difference(list, path) is None || report.status is Unmerged,
    ensures
        list.buffer_status(repo, path, Some(report)) == Some(report.status),
{
}

} // verus!
