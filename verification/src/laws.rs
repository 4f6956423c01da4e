//! What holds of the library as a whole.

use crate::base::diff_request;
use crate::base::ComparisonTargetView;
use crate::base::DiffBaseView;
use crate::base::ReloadRequestView;
use crate::base::RepositoryRef;
use crate::comparison_file::ComparisonFileView;
use crate::diff::CommitFileStatus;
use crate::diff::CommitFileView;
use crate::diff::TreeDiffStatus;
use crate::diff::TreeDiffView;
use crate::event::DiffBufferView;
use crate::event::Effects;
use crate::event::GitStoreEvent;
use crate::event::ReloadedDiffView;
use crate::event::RepositoryStateView;
use crate::load::binary_text;
use crate::load::comparison_load;
use crate::load::worktree_load;
use crate::load::BufferHandle;
use crate::load::BufferLoadView;
use crate::load::ConflictSetHandle;
use crate::load::DiffHandle;
use crate::load::DiffSource;
use crate::load::LoadEventView;
use crate::load::LoadedDiffBuffer;
use crate::model::comparison_buffer;
use crate::model::entry_paths;
use crate::model::file_paths;
use crate::model::is_reported;
use crate::model::DiffBufferListView;
use crate::operation::GitOperationKind;
use crate::path::display_component;
use crate::path::last_component;
use crate::path::name_start;
use crate::path::ProjectPathView;
use crate::select::lemma_select_contains;
use crate::select::lemma_select_distinct;
use crate::status::comparison_status;
use crate::status::merged_status;
use crate::status::new_since_head;
use crate::status::shows_change;
use crate::status::tree_status;
use crate::status::MergedChanges;
use crate::status::ReportedStatus;
use crate::status::StatusEntryView;
use std::path::PathBuf;
use vstd::prelude::*;

verus! {

/// Two operations with the same name are the same.
pub proof fn law_operation_names_differ(left: GitOperationKind, right: GitOperationKind)
    requires
        left.name() == right.name(),
    ensures
        left == right,
{
    reveal_strlit("merge");
    reveal_strlit("rebase");
    reveal_strlit("cherry-pick");
    reveal_strlit("revert");
    assert("merge"@.len() == 5);
    assert("rebase"@.len() == 6 && "rebase"@[2] == 'b');
    assert("cherry-pick"@.len() == 11);
    assert("revert"@.len() == 6 && "revert"@[2] == 'v');
}

/// The last component of a path holds no separator, and is the path itself or what follows a
/// separator in it. Every path but the empty one has a last component.
pub proof fn law_last_component(path: Seq<char>)
    ensures
        last_component(path) is None <==> path.len() == 0,
        last_component(path) matches Some(name) ==> {
            &&& !name.contains('/')
            &&& name == path || exists|dir: Seq<char>| path == #[trigger] (dir + seq!['/']) + name
        },
{
    if path.len() > 0 {
        lemma_name_start(path);
        let start = name_start(path);
        let name = path.skip(start);
        if start == 0 {
            assert(name =~= path);
        } else {
            let dir = path.take(start - 1);
            assert(path =~= (dir + seq!['/']) + name);
        }
        if name.contains('/') {
            let i = choose|i: int| 0 <= i < name.len() && name[i] == '/';
            assert(path[start + i] == '/');
        }
    }
}

proof fn lemma_name_start(path: Seq<char>)
    ensures
        0 <= name_start(path) <= path.len(),
        name_start(path) > 0 ==> path[name_start(path) - 1] == '/',
        forall|i: int| name_start(path) <= i < path.len() ==> path[i] != '/',
    decreases path.len(),
{
    if path.len() > 0 && path.last() != '/' {
        let shorter = path.drop_last();
        lemma_name_start(shorter);
        assert forall|i: int| name_start(path) <= i < path.len() implies path[i] != '/' by {
            if i < shorter.len() {
                assert(shorter[i] != '/');
            }
        }
    }
}

/// A tree diff gives back what was recorded last of a path, and what is recorded of one path
/// leaves every other as it was.
pub proof fn law_tree_diff_reads_back(
    diff: TreeDiffView,
    path: Seq<char>,
    status: TreeDiffStatus,
    other: Seq<char>,
)
    ensures
        diff.insert(path, status).get(path) == Some(status),
        other != path ==> diff.insert(path, status).get(other) == diff.get(other),
{
}

/// Files that differ in another way in a comparison have another status.
pub proof fn law_comparison_statuses_differ(left: CommitFileStatus, right: CommitFileStatus)
    requires
        comparison_status(left) == comparison_status(right),
    ensures
        left == right,
{
}

/// A file has no status against the merge base exactly where it is reported neither against
/// HEAD nor against the merge base, or where it is gone from the work tree and was never in the
/// merge base.
pub proof fn law_unchanged_files(head: Option<ReportedStatus>, base: Option<TreeDiffStatus>)
    ensures
        merged_status(head, base) is None <==> {
            ||| head is None && base is None
            ||| {
                &&& head is Some && base == Some(TreeDiffStatus::Added)
                &&& head->0.is_deleted
                &&& !(head->0.status is Unmerged)
                &&& !new_since_head(head->0.status)
            }
        },
{
}

/// A file in conflict keeps its status, whatever the merge base has.
pub proof fn law_conflicts_are_kept(head: ReportedStatus, base: Option<TreeDiffStatus>)
    requires
        head.status is Unmerged,
    ensures
        merged_status(Some(head), base) == Some(head.status),
{
}

/// With only one of the two differences known, the status is that difference.
pub proof fn law_single_difference(head: ReportedStatus, base: TreeDiffStatus)
    ensures
        merged_status(Some(head), None) == Some(head.status),
        merged_status(None, Some(base)) == Some(tree_status(base)),
{
}

/// Setting the repository or the base to what it is changes nothing and has no effect.
pub proof fn law_setting_twice(
    list: DiffBufferListView,
    repo: Option<RepositoryRef>,
    base: DiffBaseView,
)
    ensures
        ({
            let once = list.after_set_repo(repo).0;
            once.after_set_repo(repo) == (once, Effects::nothing())
        }),
        ({
            let once = list.after_set_base(base).0;
            once.after_set_base(base) == (once, Effects::nothing())
        }),
{
}

/// After a change of repository or base no diff, no error and no commit of before is left, and
/// a base that needs a diff lists nothing.
pub proof fn law_nothing_stale(
    list: DiffBufferListView,
    repo: Option<RepositoryRef>,
    base: DiffBaseView,
    entries: Seq<StatusEntryView>,
    changes: MergedChanges,
    paths: Map<Seq<char>, ProjectPathView>,
)
    ensures
        !DiffBufferListView::same_repo(list.repo, repo) ==> {
            let after = list.after_set_repo(repo).0;
            &&& after.repo == repo && after.diff_base == list.diff_base
            &&& is_blank(after)
            &&& after.diff_base.needs_diff() ==> after.buffers(entries, changes, paths).len() == 0
        },
        list.diff_base != base ==> {
            let after = list.after_set_base(base).0;
            &&& after.repo == list.repo && after.diff_base == base
            &&& is_blank(after)
            &&& base.needs_diff() ==> after.buffers(entries, changes, paths).len() == 0
        },
{
}

/// Nothing is loaded.
pub open spec fn is_blank(list: DiffBufferListView) -> bool {
    &&& list.tree_diff is None
    &&& list.comparison_diff is None
    &&& list.load_error is None
    &&& list.tree_diff_base_task is None
    &&& list.base_commit is None
    &&& list.head_commit is None
}

/// An event that concerns a list, a new repository and a new base each wake the worker where
/// the base needs a diff, and its next status update then starts a reload.
pub proof fn law_no_update_is_lost(
    list: DiffBufferListView,
    event: GitStoreEvent,
    repo: Option<RepositoryRef>,
    base: DiffBaseView,
    active_repo: Option<RepositoryRef>,
    state: RepositoryStateView,
)
    ensures
        list.is_concerned(event) && list.diff_base.needs_diff() ==> {
            let (after, effects) = list.after_event(event);
            effects.update && after.after_update(active_repo, state).1.task is Start
        },
        !DiffBufferListView::same_repo(list.repo, repo) && list.diff_base.needs_diff() ==> {
            let (after, effects) = list.after_set_repo(repo);
            effects.update && after.after_update(active_repo, state).1.task is Start
        },
        list.diff_base != base && base.needs_diff() ==> {
            let (after, effects) = list.after_set_base(base);
            effects.update && after.after_update(active_repo, state).1.task is Start
        },
{
}

/// Status updates that bring nothing new do nothing. Of updates that observe the same, the third
/// has no effect, nor has any after it. The second has none either, but for a list that takes a
/// repository over in the first and finds other commits there than it has seen.
pub proof fn law_updates_settle(
    list: DiffBufferListView,
    active_repo: Option<RepositoryRef>,
    state: RepositoryStateView,
)
    ensures
        ({
            let once = list.after_update(active_repo, state).0;
            let twice = once.after_update(active_repo, state).0;
            &&& twice.after_update(active_repo, state) == (twice, Effects::nothing())
            &&& once.after_update(active_repo, state) == (once, Effects::nothing()) <==> {
                ||| list.repo is Some
                ||| active_repo is None
                ||| list.moved_base(state) is None && state.head_commit == list.head_commit
            }
        }),
{
}

/// A status update reloads the diff only for a base that needs one.
pub proof fn law_only_diff_bases_reload(
    list: DiffBufferListView,
    active_repo: Option<RepositoryRef>,
    state: RepositoryStateView,
)
    requires
        !list.diff_base.needs_diff(),
    ensures
        list.after_update(active_repo, state).1 == Effects::nothing(),
        list.after_spawn() == (list, Effects::nothing()),
        list.after_request().1 is None,
{
}

/// The first reload of a new list starts exactly where its base needs a diff. The list then has
/// a task under way, and shows no error either way.
pub proof fn law_first_reload(base: DiffBaseView, repo: Option<RepositoryRef>)
    ensures
        ({
            let (list, effects) = DiffBufferListView::init(base, repo).after_spawn();
            &&& effects.task is Start <==> base.needs_diff()
            &&& effects.task is Keep <==> !base.needs_diff()
            &&& list.tree_diff_base_task is Some <==> base.needs_diff()
            &&& list.tree_diff_base_task matches Some(task) ==> !task.is_ready
            &&& list.load_error is None
            &&& list.diff_base == base && list.repo == repo
        }),
{
}

/// A diff is of the kind that was asked for.
pub open spec fn answers(diff: ReloadedDiffView, request: ReloadRequestView) -> bool {
    match request {
        ReloadRequestView::Tree { .. } => diff is Tree,
        ReloadRequestView::Comparison { .. } => diff is Comparison,
    }
}

/// Once the diff that a reload asked for has come, the list keeps it, waits no longer, shows no
/// error, and stands on the same base and repository as before.
pub proof fn law_reload_is_answered(list: DiffBufferListView, diff: ReloadedDiffView)
    requires
        list.after_request().1 is Some,
        answers(diff, list.after_request().1->0),
    ensures
        ({
            let after = list.after_request().0.after_reload(diff).0;
            &&& !after.is_waiting()
            &&& after.load_error is None
            &&& after.diff_base == list.diff_base
            &&& after.repo == list.repo
            &&& diff matches ReloadedDiffView::Tree(tree) ==> after.tree_diff == Some(tree)
            &&& diff matches ReloadedDiffView::Comparison(files) ==> after.comparison_diff
                == Some(files)
        }),
{
}

/// A base that needs a diff has it asked for whenever the list has a repository.
pub proof fn law_needed_diffs_are_requested(list: DiffBufferListView)
    ensures
        list.after_request().1 is Some <==> list.repo is Some && list.diff_base.needs_diff(),
{
}

/// A failed reload changes nothing in what is listed, and the next diff clears its error.
pub proof fn law_failure_keeps_files(
    list: DiffBufferListView,
    error: Seq<char>,
    diff: ReloadedDiffView,
    entries: Seq<StatusEntryView>,
    changes: MergedChanges,
    paths: Map<Seq<char>, ProjectPathView>,
)
    ensures
        ({
            let failed = list.after_failure(error).0;
            &&& failed.load_error == Some(error)
            &&& failed.buffers(entries, changes, paths) == list.buffers(entries, changes, paths)
            &&& failed.after_reload(diff).0 == list.after_reload(diff).0
        }),
{
    let failed = list.after_failure(error).0;
    if list.repo is Some {
        let repo = list.repo->0;
        assert forall|entry: StatusEntryView| #[trigger]
            failed.status_buffer(repo, changes, paths, entry) == list.status_buffer(
            repo,
            changes,
            paths,
            entry,
        ) by {
        }
        assert(entries.map_values(
            |entry: StatusEntryView| failed.status_buffer(repo, changes, paths, entry),
        ) =~= entries.map_values(
            |entry: StatusEntryView| list.status_buffer(repo, changes, paths, entry),
        ));
        if list.tree_diff is Some {
            assert(list.tree_diff->0.paths.map_values(
                |path: Seq<char>| failed.tree_buffer(repo, paths, entries, path),
            ) =~= list.tree_diff->0.paths.map_values(
                |path: Seq<char>| list.tree_buffer(repo, paths, entries, path),
            ));
        }
    }
}

/// The diff that a list keeps is the kind that its base needs.
pub open spec fn diff_matches_base(list: DiffBufferListView) -> bool {
    &&& list.tree_diff is Some ==> list.diff_base is Merge
    &&& list.comparison_diff is Some ==> list.diff_base is Comparison
}

/// A new list keeps no diff of the wrong kind, and nothing that happens to a list gives it one,
/// but a diff of a kind that its base does not need. A diff that answers what the base asks for
/// is none of those.
pub proof fn law_diff_matches_base(
    list: DiffBufferListView,
    repo: Option<RepositoryRef>,
    base: DiffBaseView,
    event: GitStoreEvent,
    state: RepositoryStateView,
    error: Seq<char>,
    diff: ReloadedDiffView,
)
    requires
        diff_matches_base(list),
    ensures
        diff_matches_base(DiffBufferListView::init(base, repo)),
        diff_matches_base(list.after_set_repo(repo).0),
        diff_matches_base(list.after_set_base(base).0),
        diff_matches_base(list.after_event(event).0),
        diff_matches_base(list.after_update(repo, state).0),
        diff_matches_base(list.after_spawn().0),
        diff_matches_base(list.after_request().0),
        diff_matches_base(list.after_failure(error).0),
        diff_matches_base(list.after_task()),
        diff_matches_base(list.after_reload(diff).0) <==> {
            ||| diff is Tree && list.diff_base is Merge
            ||| diff is Comparison && list.diff_base is Comparison
        },
        forall|at: RepositoryRef|
            (#[trigger] diff_request(at, list.diff_base) matches Some(request) && answers(
                diff,
                request,
            )) ==> diff_matches_base(list.after_reload(diff).0),
{
}

/// The paths of listed files.
pub open spec fn buffer_paths(buffers: Seq<DiffBufferView>) -> Seq<Seq<char>> {
    buffers.map_values(|buffer: DiffBufferView| buffer.repo_path)
}

/// No file is listed twice, where the repository reports no file twice, and where a comparison
/// that is listed has no file twice.
pub proof fn law_listed_once(
    list: DiffBufferListView,
    entries: Seq<StatusEntryView>,
    changes: MergedChanges,
    paths: Map<Seq<char>, ProjectPathView>,
)
    requires
        list.wf(),
        entry_paths(entries).no_duplicates(),
        list.diff_base is Comparison && list.comparison_diff is Some ==> file_paths(
            list.comparison_diff->0,
        ).no_duplicates(),
    ensures
        buffer_paths(list.buffers(entries, changes, paths)).no_duplicates(),
{
    let key = |buffer: DiffBufferView| buffer.repo_path;
    if list.repo is Some && !list.is_waiting() {
        let repo = list.repo->0;
        match list.diff_base {
            DiffBaseView::Comparison { target, .. } => {
                lemma_select_distinct(
                    list.comparison_diff->0,
                    |file: CommitFileView| comparison_buffer(target, repo, paths, file),
                    |file: CommitFileView| file.path,
                    key,
                );
            },
            _ => {
                let by_status = list.status_buffers(repo, changes, paths, entries);
                let by_tree = list.tree_buffers(repo, paths, entries);
                lemma_select_distinct(
                    entries,
                    |entry: StatusEntryView| list.status_buffer(repo, changes, paths, entry),
                    |entry: StatusEntryView| entry.repo_path,
                    key,
                );
                if list.tree_diff is Some {
                    let tree_paths = list.tree_diff->0.paths;
                    assert(tree_paths.map_values(|path: Seq<char>| path) =~= tree_paths);
                    lemma_select_distinct(
                        tree_paths,
                        |path: Seq<char>| list.tree_buffer(repo, paths, entries, path),
                        |path: Seq<char>| path,
                        key,
                    );
                }
                let all = buffer_paths(by_status + by_tree);
                let first = buffer_paths(by_status);
                let second = buffer_paths(by_tree);
                assert(all =~= first + second);
                assert forall|i: int, j: int|
                    0 <= i < first.len() && 0 <= j < second.len() implies first[i]
                    != second[j] by {
                    assert(by_status.contains(by_status[i]));
                    assert(by_tree.contains(by_tree[j]));
                    lemma_status_buffer_origin(list, repo, entries, changes, paths, by_status[i]);
                    lemma_tree_buffer_origin(list, repo, entries, paths, by_tree[j]);
                }
            },
        }
    }
}

proof fn lemma_status_buffer_origin(
    list: DiffBufferListView,
    repo: RepositoryRef,
    entries: Seq<StatusEntryView>,
    changes: MergedChanges,
    paths: Map<Seq<char>, ProjectPathView>,
    buffer: DiffBufferView,
)
    requires
        list.status_buffers(repo, changes, paths, entries).contains(buffer),
    ensures
        is_reported(entries, buffer.repo_path),
        paths.contains_key(buffer.repo_path),
        exists|i: int|
            0 <= i < entries.len() && list.status_buffer(repo, changes, paths, #[trigger] entries[i])
                == Some(buffer),
{
    let pick = |entry: StatusEntryView| list.status_buffer(repo, changes, paths, entry);
    lemma_select_contains(entries, pick, buffer);
    let i = choose|i: int| 0 <= i < entries.len() && pick(#[trigger] entries[i]) == Some(buffer);
    assert(entries[i].repo_path == buffer.repo_path);
}

proof fn lemma_tree_buffer_origin(
    list: DiffBufferListView,
    repo: RepositoryRef,
    entries: Seq<StatusEntryView>,
    paths: Map<Seq<char>, ProjectPathView>,
    buffer: DiffBufferView,
)
    requires
        list.tree_buffers(repo, paths, entries).contains(buffer),
    ensures
        !is_reported(entries, buffer.repo_path),
        paths.contains_key(buffer.repo_path),
        list.branch_diff(buffer.repo_path) is Some,
        buffer.file_status == tree_status(list.branch_diff(buffer.repo_path)->0),
        list.tree_buffer(repo, paths, entries, buffer.repo_path) == Some(buffer),
{
    let tree_paths = list.tree_diff->0.paths;
    let pick = |path: Seq<char>| list.tree_buffer(repo, paths, entries, path);
    lemma_select_contains(tree_paths, pick, buffer);
    let i = choose|i: int|
        0 <= i < tree_paths.len() && pick(#[trigger] tree_paths[i]) == Some(buffer);
    assert(tree_paths[i] == buffer.repo_path);
}

/// What is listed depends on the place in the project of the candidates alone.
pub proof fn law_candidates_decide(
    list: DiffBufferListView,
    entries: Seq<StatusEntryView>,
    changes: MergedChanges,
    left: Map<Seq<char>, ProjectPathView>,
    right: Map<Seq<char>, ProjectPathView>,
)
    requires
        forall|path: Seq<char>| #[trigger]
            list.candidates(entries).contains(path) ==> left.contains_key(path)
                == right.contains_key(path) && (left.contains_key(path) ==> left[path]
                == right[path]),
    ensures
        list.buffers(entries, changes, left) == list.buffers(entries, changes, right),
{
    if list.repo is Some && !list.is_waiting() {
        let repo = list.repo->0;
        let all = list.candidates(entries);
        match list.diff_base {
            DiffBaseView::Comparison { target, .. } => {
                let files = list.comparison_diff->0;
                let pick_left = |file: CommitFileView| comparison_buffer(target, repo, left, file);
                let pick_right = |file: CommitFileView|
                    comparison_buffer(target, repo, right, file);
                assert forall|i: int| 0 <= i < files.len() implies files.map_values(pick_left)[i]
                    == files.map_values(pick_right)[i] by {
                    assert(all[i] == files[i].path);
                    assert(all.contains(files[i].path));
                }
                assert(files.map_values(pick_left) =~= files.map_values(pick_right));
            },
            _ => {
                let pick_left = |entry: StatusEntryView|
                    list.status_buffer(repo, changes, left, entry);
                let pick_right = |entry: StatusEntryView|
                    list.status_buffer(repo, changes, right, entry);
                assert forall|i: int| 0 <= i < entries.len() implies entries.map_values(
                    pick_left,
                )[i] == entries.map_values(pick_right)[i] by {
                    assert(all[i] == entries[i].repo_path);
                    assert(all.contains(entries[i].repo_path));
                }
                assert(entries.map_values(pick_left) =~= entries.map_values(pick_right));
                if list.tree_diff is Some {
                    let paths = list.tree_diff->0.paths;
                    let tree_left = |path: Seq<char>| list.tree_buffer(repo, left, entries, path);
                    let tree_right = |path: Seq<char>|
                        list.tree_buffer(repo, right, entries, path);
                    assert forall|i: int| 0 <= i < paths.len() implies paths.map_values(
                        tree_left,
                    )[i] == paths.map_values(tree_right)[i] by {
                        assert(all[entries.len() + i] == paths[i]);
                        assert(all.contains(paths[i]));
                    }
                    assert(paths.map_values(tree_left) =~= paths.map_values(tree_right));
                }
            },
        }
    }
}

/// Every listed file is held by the project, and is what is listed for a file that is reported,
/// for one that only differs from the merge base, or for one of the comparison.
pub proof fn law_listed_files_have_an_origin(
    list: DiffBufferListView,
    entries: Seq<StatusEntryView>,
    changes: MergedChanges,
    paths: Map<Seq<char>, ProjectPathView>,
    buffer: DiffBufferView,
)
    requires
        list.buffers(entries, changes, paths).contains(buffer),
    ensures
        paths.contains_key(buffer.repo_path),
        list.diff_base matches DiffBaseView::Comparison { target, .. } ==> exists|i: int|
            0 <= i < list.comparison_diff->0.len() && comparison_buffer(
                target,
                list.repo->0,
                paths,
                #[trigger] list.comparison_diff->0[i],
            ) == Some(buffer),
        !(list.diff_base is Comparison) ==> {
            ||| exists|i: int|
                0 <= i < entries.len() && list.status_buffer(
                    list.repo->0,
                    changes,
                    paths,
                    #[trigger] entries[i],
                ) == Some(buffer)
            ||| list.tree_buffer(list.repo->0, paths, entries, buffer.repo_path) == Some(buffer)
        },
{
    let repo = list.repo->0;
    match list.diff_base {
        DiffBaseView::Comparison { target, .. } => {
            let files = list.comparison_diff->0;
            let pick = |file: CommitFileView| comparison_buffer(target, repo, paths, file);
            lemma_select_contains(files, pick, buffer);
            let i = choose|i: int|
                0 <= i < files.len() && pick(#[trigger] files[i]) == Some(buffer);
            assert(files[i].path == buffer.repo_path);
        },
        _ => {
            let by_status = list.status_buffers(repo, changes, paths, entries);
            let by_tree = list.tree_buffers(repo, paths, entries);
            let k = choose|k: int|
                0 <= k < (by_status + by_tree).len() && (by_status + by_tree)[k] == buffer;
            if k < by_status.len() {
                assert(by_status.contains(by_status[k]));
                lemma_status_buffer_origin(list, repo, entries, changes, paths, buffer);
            } else {
                assert(by_tree.contains(by_tree[k - by_status.len()]));
                lemma_tree_buffer_origin(list, repo, entries, paths, buffer);
            }
        },
    }
}

/// A file that the project holds and whose status on the list's base shows a change is listed,
/// with its reported status; so is every file that only differs from the merge base, and every
/// file of a comparison.
pub proof fn law_changed_files_are_listed(
    list: DiffBufferListView,
    entries: Seq<StatusEntryView>,
    changes: MergedChanges,
    paths: Map<Seq<char>, ProjectPathView>,
    path: Seq<char>,
)
    requires
        list.wf(),
        list.repo is Some,
        !list.is_waiting(),
        paths.contains_key(path),
    ensures
        list.diff_base matches DiffBaseView::Comparison { target, .. } ==> forall|i: int|
            0 <= i < list.comparison_diff->0.len() && (
            #[trigger] list.comparison_diff->0[i]).path == path ==> {
                let file = list.comparison_diff->0[i];
                let buffer = comparison_buffer(target, list.repo->0, paths, file)->0;
                &&& buffer.repo_path == path
                &&& buffer.file_status == comparison_status(file.status)
                &&& list.buffers(entries, changes, paths).contains(buffer)
            },
        !(list.diff_base is Comparison) ==> forall|i: int|
            0 <= i < entries.len() && (#[trigger] entries[i]).repo_path == path && (
            list.listed_status(entries[i]) matches Some(found) && shows_change(
                entries[i].status,
                changes,
                found,
            )) ==> {
                let buffer = list.status_buffer(list.repo->0, changes, paths, entries[i])->0;
                &&& buffer.repo_path == path
                &&& buffer.file_status == entries[i].status.status
                &&& list.buffers(entries, changes, paths).contains(buffer)
            },
        !(list.diff_base is Comparison) && !is_reported(entries, path) && list.branch_diff(
            path,
        ) is Some ==> {
            let buffer = list.tree_buffer(list.repo->0, paths, entries, path)->0;
            &&& buffer.repo_path == path
            &&& buffer.file_status == tree_status(list.branch_diff(path)->0)
            &&& list.buffers(entries, changes, paths).contains(buffer)
        },
{
    let repo = list.repo->0;
    match list.diff_base {
        DiffBaseView::Comparison { target, .. } => {
            let files = list.comparison_diff->0;
            let pick = |file: CommitFileView| comparison_buffer(target, repo, paths, file);
            assert forall|i: int|
                0 <= i < files.len() && (#[trigger] files[i]).path == path implies ({
                let buffer = comparison_buffer(target, repo, paths, files[i])->0;
                &&& buffer.repo_path == path
                &&& buffer.file_status == comparison_status(files[i].status)
                &&& list.buffers(entries, changes, paths).contains(buffer)
            }) by {
                let buffer = comparison_buffer(target, repo, paths, files[i])->0;
                lemma_select_contains(files, pick, buffer);
                assert(pick(files[i]) == Some(buffer));
            }
        },
        _ => {
            let by_status = list.status_buffers(repo, changes, paths, entries);
            let by_tree = list.tree_buffers(repo, paths, entries);
            let all = by_status + by_tree;
            assert forall|i: int|
                0 <= i < entries.len() && (#[trigger] entries[i]).repo_path == path && (
                list.listed_status(entries[i]) matches Some(found) && shows_change(
                    entries[i].status,
                    changes,
                    found,
                )) implies ({
                let buffer = list.status_buffer(repo, changes, paths, entries[i])->0;
                &&& buffer.repo_path == path
                &&& buffer.file_status == entries[i].status.status
                &&& list.buffers(entries, changes, paths).contains(buffer)
            }) by {
                let buffer = list.status_buffer(repo, changes, paths, entries[i])->0;
                let pick = |entry: StatusEntryView| list.status_buffer(repo, changes, paths, entry);
                lemma_select_contains(entries, pick, buffer);
                assert(pick(entries[i]) == Some(buffer));
                let k = choose|k: int| 0 <= k < by_status.len() && by_status[k] == buffer;
                assert(all[k] == buffer);
            }
            if !is_reported(entries, path) && list.branch_diff(path) is Some {
                let diff = list.tree_diff->0;
                let buffer = list.tree_buffer(repo, paths, entries, path)->0;
                let pick = |path: Seq<char>| list.tree_buffer(repo, paths, entries, path);
                assert(diff.entries.contains_key(path));
                assert(diff.paths.contains(path));
                let i = choose|i: int| 0 <= i < diff.paths.len() && diff.paths[i] == path;
                lemma_select_contains(diff.paths, pick, buffer);
                assert(pick(diff.paths[i]) == Some(buffer));
                let k = choose|k: int| 0 <= k < by_tree.len() && by_tree[k] == buffer;
                assert(all[by_status.len() + k] == buffer);
            }
        },
    }
}

/// On a list of staged changes a reported file is listed exactly where it has changes, some of
/// them are staged, and the project holds it; on a list of unstaged ones exactly where some of
/// them are not.
pub proof fn law_staged_and_unstaged(
    list: DiffBufferListView,
    repo: RepositoryRef,
    changes: MergedChanges,
    paths: Map<Seq<char>, ProjectPathView>,
    entry: StatusEntryView,
)
    ensures
        list.diff_base is Staged ==> (list.status_buffer(repo, changes, paths, entry) is Some
            <==> entry.status.has_changes && entry.status.has_staged && paths.contains_key(
            entry.repo_path,
        )),
        list.diff_base is Index ==> (list.status_buffer(repo, changes, paths, entry) is Some
            <==> entry.status.has_changes && entry.status.has_unstaged && paths.contains_key(
            entry.repo_path,
        )),
{
}

/// The status that a buffer shows and the list agree: on the changes since HEAD or since a merge
/// base, a reported file is listed exactly where its buffer has a status that shows a change and
/// the project holds the file.
pub proof fn law_buffer_status_agrees(
    list: DiffBufferListView,
    changes: MergedChanges,
    paths: Map<Seq<char>, ProjectPathView>,
    entry: StatusEntryView,
)
    requires
        list.repo is Some,
        list.diff_base is Head || list.diff_base is Merge,
    ensures
        list.status_buffer(list.repo->0, changes, paths, entry) is Some <==> {
            let status = list.buffer_status(list.repo->0, entry.repo_path, Some(entry.status));
            &&& status is Some
            &&& shows_change(entry.status, changes, status->0)
            &&& paths.contains_key(entry.repo_path)
        },
{
}

/// How many answers a load still needs at most.
pub open spec fn steps_left(load: BufferLoadView) -> nat {
    match load {
        BufferLoadView::OpenBuffer { .. } => 3,
        BufferLoadView::OpenDiff { .. } => 2,
        BufferLoadView::OpenConflictSet { .. } => 1,
        BufferLoadView::LoadOldBlob { .. } => 4,
        BufferLoadView::LoadNewBlob { .. } => 3,
        BufferLoadView::PrepareSnapshot { .. } => 2,
        BufferLoadView::BuildSnapshot { .. } => 1,
        BufferLoadView::Loaded(_) => 0,
    }
}

/// An event answers the step that a load is at.
pub open spec fn is_answer(load: BufferLoadView, event: LoadEventView) -> bool {
    match load {
        BufferLoadView::OpenBuffer { .. } => event is BufferOpened,
        BufferLoadView::OpenDiff { source, .. } => if source is Staged {
            event is StagedDiffOpened
        } else {
            event is DiffOpened
        },
        BufferLoadView::OpenConflictSet { .. } => event is ConflictSetOpened,
        BufferLoadView::LoadOldBlob { .. } => event is BlobLoaded,
        BufferLoadView::LoadNewBlob { .. } => event is BlobLoaded,
        BufferLoadView::PrepareSnapshot { old_text, .. } => event is SnapshotPrepared
            && event->SnapshotPrepared_old_text is Some == old_text is Some,
        BufferLoadView::BuildSnapshot { .. } => event is SnapshotBuilt,
        BufferLoadView::Loaded(_) => false,
    }
}

/// Each answer brings a load nearer to its end, and nothing else changes it. A load that needs
/// no more answers is loaded.
pub proof fn law_loads_end(load: BufferLoadView, event: LoadEventView)
    ensures
        is_answer(load, event) ==> steps_left(load.next(event)) < steps_left(load),
        !is_answer(load, event) ==> load.next(event) == load,
        steps_left(load) == 0 <==> load is Loaded,
{
}

/// A file of the staged changes is loaded without its conflicts, and shows the file as it is in
/// the index.
pub proof fn law_staged_load(
    base: DiffBaseView,
    branch_diff: Option<TreeDiffStatus>,
    path: ProjectPathView,
    repo: RepositoryRef,
    main: BufferHandle,
    index: BufferHandle,
    diff: DiffHandle,
)
    requires
        base is Staged,
    ensures
        worktree_load(base, branch_diff, path, repo).run(
            seq![
                LoadEventView::BufferOpened(main),
                LoadEventView::StagedDiffOpened { diff, index_buffer: index },
            ],
        ) == BufferLoadView::Loaded(
            LoadedDiffBuffer {
                display_buffer: index,
                main_buffer: main,
                diff,
                conflict_set: None,
            },
        ),
{
    let load = worktree_load(base, branch_diff, path, repo);
    let first = LoadEventView::BufferOpened(main);
    let second = LoadEventView::StagedDiffOpened { diff, index_buffer: index };
    lemma_run_push(load, seq![], first);
    lemma_run_push(load, seq![first], second);
    assert(seq![].push(first) =~= seq![first]);
    assert(seq![first].push(second) =~= seq![first, second]);
}

/// Every other file of the work tree is loaded with its conflicts, and shows the file itself.
pub proof fn law_worktree_load(
    base: DiffBaseView,
    branch_diff: Option<TreeDiffStatus>,
    path: ProjectPathView,
    repo: RepositoryRef,
    main: BufferHandle,
    diff: DiffHandle,
    set: ConflictSetHandle,
)
    requires
        !(base is Staged),
        !(base is Comparison),
    ensures
        worktree_load(base, branch_diff, path, repo).run(
            seq![
                LoadEventView::BufferOpened(main),
                LoadEventView::DiffOpened(diff),
                LoadEventView::ConflictSetOpened(set),
            ],
        ) == BufferLoadView::Loaded(
            LoadedDiffBuffer {
                display_buffer: main,
                main_buffer: main,
                diff,
                conflict_set: Some(set),
            },
        ),
{
    let load = worktree_load(base, branch_diff, path, repo);
    let first = LoadEventView::BufferOpened(main);
    let second = LoadEventView::DiffOpened(diff);
    let third = LoadEventView::ConflictSetOpened(set);
    lemma_run_push(load, seq![], first);
    lemma_run_push(load, seq![first], second);
    lemma_run_push(load, seq![first, second], third);
    assert(seq![].push(first) =~= seq![first]);
    assert(seq![first].push(second) =~= seq![first, second]);
    assert(seq![first, second].push(third) =~= seq![first, second, third]);
}

proof fn lemma_run_push(load: BufferLoadView, events: Seq<LoadEventView>, event: LoadEventView)
    ensures
        load.run(seq![]) == load,
        load.run(events.push(event)) == load.run(events).next(event),
{
    assert(events.push(event).drop_last() =~= events);
}

/// A load that shows the same buffer as it edits and opens no conflicts.
pub open spec fn is_plain(load: BufferLoadView) -> bool {
    match load {
        BufferLoadView::OpenBuffer { source, conflict_set, .. } => !(source is Staged)
            && !conflict_set,
        BufferLoadView::OpenDiff { source, conflict_set, .. } => !(source is Staged)
            && !conflict_set,
        BufferLoadView::OpenConflictSet { .. } => false,
        BufferLoadView::Loaded(loaded) => loaded.display_buffer == loaded.main_buffer
            && loaded.conflict_set is None,
        _ => true,
    }
}

/// Whatever happens, a file of a comparison is loaded without conflicts and shows one buffer.
pub proof fn law_comparison_load(
    target: ComparisonTargetView,
    file: CommitFileView,
    path: ProjectPathView,
    repo: RepositoryRef,
    events: Seq<LoadEventView>,
)
    ensures
        is_plain(comparison_load(target, file, path, repo).run(events)),
    decreases events.len(),
{
    if events.len() > 0 {
        law_comparison_load(target, file, path, repo, events.drop_last());
    }
}

/// A load of a snapshot has a base text exactly where the old side has contents that are read.
pub open spec fn has_base_text(load: BufferLoadView, expected: bool) -> bool {
    match load {
        BufferLoadView::LoadOldBlob { .. } => expected,
        BufferLoadView::LoadNewBlob { old_text, .. } => old_text is Some == expected,
        BufferLoadView::PrepareSnapshot { old_text, .. } => old_text is Some == expected,
        BufferLoadView::BuildSnapshot { base_text, .. } => base_text is Some == expected,
        _ => true,
    }
}

/// Whatever happens, a file of a comparison that is built from stored objects is diffed from a
/// base text exactly where the old side has the file and the file is not binary.
pub proof fn law_base_text(
    target: ComparisonTargetView,
    file: CommitFileView,
    path: ProjectPathView,
    repo: RepositoryRef,
    events: Seq<LoadEventView>,
)
    ensures
        has_base_text(
            comparison_load(target, file, path, repo).run(events),
            file.old_oid is Some && !file.is_binary,
        ),
    decreases events.len(),
{
    if events.len() > 0 {
        law_base_text(target, file, path, repo, events.drop_last());
    }
}

/// A file of a comparison that is built from stored objects is loaded by reading the old side,
/// then the new side, each only where it has one: a new side without one is empty. Its buffer
/// shows the new text, as it was prepared, against the old text, if there is one, under the name
/// of the new side and of the file, and without conflicts.
pub proof fn law_snapshot_load(
    target: ComparisonTargetView,
    file: CommitFileView,
    path: ProjectPathView,
    repo: RepositoryRef,
    old_raw: Seq<char>,
    new_raw: Seq<char>,
    old_text: Seq<char>,
    new_text: Seq<char>,
    full_path: PathBuf,
    buffer: BufferHandle,
    diff: DiffHandle,
)
    requires
        !(target is Worktree) || file.status is Deleted,
        !file.is_binary,
    ensures
        ({
            let start = comparison_load(target, file, path, repo);
            let second = if file.old_oid is Some {
                start.next(LoadEventView::BlobLoaded(old_raw))
            } else {
                start
            };
            let third = if file.new_oid is Some {
                second.next(LoadEventView::BlobLoaded(new_raw))
            } else {
                second
            };
            let base_text = if file.old_oid is Some {
                Some(old_text)
            } else {
                None
            };
            let fourth = third.next(
                LoadEventView::SnapshotPrepared { old_text: base_text, new_text, full_path },
            );
            &&& file.old_oid matches Some(oid) ==> start is LoadOldBlob && start->LoadOldBlob_oid
                == oid
            &&& file.new_oid matches Some(oid) ==> second is LoadNewBlob && second->LoadNewBlob_oid
                == oid
            &&& third is PrepareSnapshot
            &&& third->PrepareSnapshot_old_text == (if file.old_oid is Some {
                Some(old_raw)
            } else {
                None
            })
            &&& third->new_text == (if file.new_oid is Some {
                new_raw
            } else {
                Seq::empty()
            })
            &&& fourth == (BufferLoadView::BuildSnapshot {
                base_text,
                text: new_text,
                file: ComparisonFileView {
                    path: path.path,
                    full_path,
                    worktree_id: path.worktree_id,
                    display_name: target.label() + " - "@ + display_component(file.path),
                    was_deleted: file.new_oid is None,
                    is_binary: false,
                },
            })
            &&& fourth.next(LoadEventView::SnapshotBuilt { buffer, diff })
                == BufferLoadView::Loaded(
                LoadedDiffBuffer {
                    display_buffer: buffer,
                    main_buffer: buffer,
                    diff,
                    conflict_set: None,
                },
            )
        }),
{
}

/// A binary file of a comparison that is not opened in the work tree shows a fixed text against
/// nothing, under the name of the new side and of the file, and cannot be opened.
pub proof fn law_binary_load(
    target: ComparisonTargetView,
    file: CommitFileView,
    path: ProjectPathView,
    repo: RepositoryRef,
    new_text: Seq<char>,
    full_path: PathBuf,
)
    requires
        !(target is Worktree) || file.status is Deleted,
        file.is_binary,
    ensures
        ({
            let start = comparison_load(target, file, path, repo);
            &&& start is PrepareSnapshot
            &&& start->PrepareSnapshot_old_text is None
            &&& start->new_text == binary_text()
            &&& start.next(
                LoadEventView::SnapshotPrepared { old_text: None, new_text, full_path },
            ) == (BufferLoadView::BuildSnapshot {
                base_text: None,
                text: new_text,
                file: ComparisonFileView {
                    path: path.path,
                    full_path,
                    worktree_id: path.worktree_id,
                    display_name: target.label() + " - "@ + display_component(file.path),
                    was_deleted: file.new_oid is None,
                    is_binary: true,
                },
            })
        }),
{
}

/// A file of a comparison with the work tree that the work tree still has is opened there, with
/// its diff since the old side and without conflicts.
pub proof fn law_comparison_worktree_load(
    file: CommitFileView,
    path: ProjectPathView,
    repo: RepositoryRef,
    main: BufferHandle,
    diff: DiffHandle,
)
    requires
        !(file.status is Deleted),
    ensures
        ({
            let start = comparison_load(ComparisonTargetView::Worktree, file, path, repo);
            &&& start == (BufferLoadView::OpenBuffer {
                project_path: path,
                source: DiffSource::Since { oid: file.old_oid, repo },
                conflict_set: false,
            })
            &&& start.next(LoadEventView::BufferOpened(main)).next(LoadEventView::DiffOpened(diff))
                == BufferLoadView::Loaded(
                LoadedDiffBuffer {
                    display_buffer: main,
                    main_buffer: main,
                    diff,
                    conflict_set: None,
                },
            )
        }),
{
}

/// Whatever happens, no contents of a binary file are read, except where the work tree itself
/// is shown.
pub proof fn law_binary_files_are_not_read(
    target: ComparisonTargetView,
    file: CommitFileView,
    path: ProjectPathView,
    repo: RepositoryRef,
    events: Seq<LoadEventView>,
)
    requires
        file.is_binary,
    ensures
        ({
            let load = comparison_load(target, file, path, repo).run(events);
            &&& !(load is LoadOldBlob)
            &&& !(load is LoadNewBlob)
        }),
    decreases events.len(),
{
    if events.len() > 0 {
        law_binary_files_are_not_read(target, file, path, repo, events.drop_last());
    }
}

} // verus!
