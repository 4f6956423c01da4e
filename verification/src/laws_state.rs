//! What each operation on a list changes, what it leaves as it is, and what is left to do after
//! it.

use crate::base::ComparisonTargetView;
use crate::base::DiffBaseView;
use crate::base::DiffTreeTypeView;
use crate::base::GitComparisonTargetView;
use crate::base::ReloadRequestView;
use crate::base::RepositoryRef;
use crate::diff::CommitFileView;
use crate::diff::TreeDiffView;
use crate::event::BranchDiffEvent;
use crate::event::Effects;
use crate::event::GitStoreEvent;
use crate::event::ReloadTask;
use crate::event::ReloadedDiffView;
use crate::event::RepositoryEvent;
use crate::event::RepositoryStateView;
use crate::event::TaskChange;
use crate::model::DiffBufferListView;
use vstd::prelude::*;

verus! {

/// Two states of a list have the same base, repository and diff, and saw the same commits.
pub open spec fn same_contents(left: DiffBufferListView, right: DiffBufferListView) -> bool {
    &&& left.diff_base == right.diff_base
    &&& left.repo == right.repo
    &&& left.base_commit == right.base_commit
    &&& left.head_commit == right.head_commit
    &&& left.tree_diff == right.tree_diff
    &&& left.comparison_diff == right.comparison_diff
}

/// Nothing is left to do.
pub open spec fn is_idle(effects: Effects) -> bool {
    &&& effects.event is None
    &&& !effects.update
    &&& !effects.notify
    &&& effects.task == TaskChange::Keep
}

/// The event is one that changes what a list of this repository shows: the statuses or the HEAD
/// of that repository changed, or there is none yet and one became active.
pub open spec fn changes_files_of(event: GitStoreEvent, repo: Option<RepositoryRef>) -> bool {
    match repo {
        Some(repo) => {
            ||| event == GitStoreEvent::RepositoryUpdated(repo.id, RepositoryEvent::StatusesChanged)
            ||| event == GitStoreEvent::RepositoryUpdated(repo.id, RepositoryEvent::HeadChanged)
        },
        None => event matches GitStoreEvent::ActiveRepositoryChanged(Some(_)),
    }
}

/// A new list has its base and its repository, and nothing else: nothing is loaded, asked for or
/// failed.
pub proof fn law_new_list(base: DiffBaseView, repo: Option<RepositoryRef>)
    ensures
        ({
            let list = DiffBufferListView::init(base, repo);
            &&& list.diff_base == base
            &&& list.repo == repo
            &&& list.base_commit is None
            &&& list.head_commit is None
            &&& list.tree_diff is None
            &&& list.comparison_diff is None
            &&& list.load_error is None
            &&& !list.tree_diff_update_needed
            &&& list.tree_diff_base_task is None
        }),
{
}

/// Whatever the base: an event that changes the files of the list is told to the observers and
/// wakes the worker, which then reloads the diff where the base needs one. Any other event
/// changes nothing and leaves nothing to do.
pub proof fn law_events_reach_every_base(list: DiffBufferListView, event: GitStoreEvent)
    ensures
        ({
            let (after, effects) = list.after_event(event);
            &&& same_contents(after, list)
            &&& after.load_error == list.load_error
            &&& after.tree_diff_base_task == list.tree_diff_base_task
            &&& if changes_files_of(event, list.repo) {
                &&& effects.event == Some(BranchDiffEvent::FileListChanged)
                &&& effects.update
                &&& !effects.notify
                &&& effects.task == TaskChange::Keep
                &&& after.tree_diff_update_needed <==> list.diff_base is Merge || list.diff_base
                    is Comparison
            } else {
                is_idle(effects) && after == list
            }
        }),
{
}

/// Setting the repository that the list has, by its identifier, changes nothing and leaves
/// nothing to do. Setting another drops all that was loaded, cancels the reload under way, tells
/// the observers, wakes the worker, and asks for a reload where the base needs a diff.
pub proof fn law_set_repo(list: DiffBufferListView, repo: Option<RepositoryRef>)
    ensures
        ({
            let (after, effects) = list.after_set_repo(repo);
            if (list.repo is None && repo is None) || (list.repo is Some && repo is Some
                && list.repo->0.id == repo->0.id) {
                is_idle(effects) && after == list
            } else {
                &&& after.diff_base == list.diff_base
                &&& after.repo == repo
                &&& after.base_commit is None
                &&& after.head_commit is None
                &&& after.tree_diff is None
                &&& after.comparison_diff is None
                &&& after.load_error is None
                &&& after.tree_diff_base_task is None
                &&& after.tree_diff_update_needed <==> list.diff_base is Merge || list.diff_base
                    is Comparison
                &&& effects.event == Some(BranchDiffEvent::FileListChanged)
                &&& effects.update
                &&& !effects.notify
                &&& effects.task == TaskChange::Cancel
            }
        }),
{
}

/// Setting the base that the list has changes nothing and leaves nothing to do. Setting another
/// drops all that was loaded, cancels the reload under way, tells the observers, and wakes the
/// worker and asks for a reload where the new base needs a diff.
pub proof fn law_set_base(list: DiffBufferListView, base: DiffBaseView)
    ensures
        ({
            let (after, effects) = list.after_set_base(base);
            let needs_diff = base is Merge || base is Comparison;
            if list.diff_base == base {
                is_idle(effects) && after == list
            } else {
                &&& after.diff_base == base
                &&& after.repo == list.repo
                &&& after.base_commit is None
                &&& after.head_commit is None
                &&& after.tree_diff is None
                &&& after.comparison_diff is None
                &&& after.load_error is None
                &&& after.tree_diff_base_task is None
                &&& after.tree_diff_update_needed <==> needs_diff
                &&& effects.event == Some(BranchDiffEvent::DiffBaseChanged)
                &&& effects.update <==> needs_diff
                &&& !effects.notify
                &&& effects.task == TaskChange::Cancel
            }
        }),
{
}

/// Starting a reload clears the last failure, and keeps what is loaded. On a base that needs no
/// diff nothing is started.
pub proof fn law_spawn(list: DiffBufferListView)
    ensures
        ({
            let (after, effects) = list.after_spawn();
            &&& same_contents(after, list)
            &&& after.tree_diff_update_needed == list.tree_diff_update_needed
            &&& if list.diff_base is Merge || list.diff_base is Comparison {
                &&& after.tree_diff_base_task == Some(ReloadTask { is_ready: false })
                &&& after.load_error is None
                &&& effects.event is None
                &&& !effects.update
                &&& effects.notify
                &&& effects.task == TaskChange::Start
            } else {
                is_idle(effects) && after == list
            }
        }),
{
}

/// After a status update a list without a repository has the active one, and a list with one has
/// seen the commits that the repository is at: that of HEAD, and, where the branch of its merge
/// base is checked out and has one, that of the branch. Base and diffs stay.
pub proof fn law_update_sees_the_repository(
    list: DiffBufferListView,
    active_repo: Option<RepositoryRef>,
    state: RepositoryStateView,
)
    ensures
        ({
            let after = list.after_update(active_repo, state).0;
            &&& after.diff_base == list.diff_base
            &&& after.tree_diff == list.tree_diff
            &&& after.comparison_diff == list.comparison_diff
            &&& !after.tree_diff_update_needed
            &&& list.repo is None ==> {
                &&& after.repo == active_repo
                &&& after.base_commit == list.base_commit
                &&& after.head_commit == list.head_commit
            }
            &&& list.repo is Some ==> {
                &&& after.repo == list.repo
                &&& after.head_commit == state.head_commit
                &&& if list.diff_base is Merge && state.branch is Some
                    && state.branch->0.ref_name == list.diff_base->base_ref
                    && state.branch->0.most_recent_commit is Some {
                    after.base_commit == state.branch->0.most_recent_commit
                } else {
                    after.base_commit == list.base_commit
                }
            }
        }),
{
}

/// A status update starts a reload exactly where the base needs a diff and something calls for
/// one: it was asked for, the list had no repository and now has one, or one of the commits that
/// it saw is another than before. Else nothing is left to do.
pub proof fn law_update_reloads_what_changed(
    list: DiffBufferListView,
    active_repo: Option<RepositoryRef>,
    state: RepositoryStateView,
)
    ensures
        ({
            let (after, effects) = list.after_update(active_repo, state);
            let calls_for_reload = {
                ||| list.tree_diff_update_needed
                ||| list.repo is None && after.repo is Some
                ||| after.head_commit != list.head_commit
                ||| after.base_commit != list.base_commit
            };
            if (list.diff_base is Merge || list.diff_base is Comparison) && calls_for_reload {
                &&& after.tree_diff_base_task == Some(ReloadTask { is_ready: false })
                &&& after.load_error is None
                &&& effects.event is None
                &&& !effects.update
                &&& effects.notify
                &&& effects.task == TaskChange::Start
            } else {
                &&& after.tree_diff_base_task == list.tree_diff_base_task
                &&& after.load_error == list.load_error
                &&& is_idle(effects)
            }
        }),
{
}

/// A reload on a merge base asks the list's repository for the trees between the base's branch
/// and HEAD, one on a comparison for the two sides that the base names, and any other for
/// nothing. The list stays as it is.
pub proof fn law_reload_asks_the_repository(list: DiffBufferListView, repo: RepositoryRef)
    requires
        list.repo == Some(repo),
    ensures
        ({
            let (after, request) = list.after_request();
            &&& after == list
            &&& match list.diff_base {
                DiffBaseView::Head | DiffBaseView::Index | DiffBaseView::Staged => request is None,
                DiffBaseView::Merge { base_ref } => request == Some(
                    ReloadRequestView::Tree {
                        repo,
                        trees: DiffTreeTypeView::MergeBase { base: base_ref, head: "HEAD"@ },
                    },
                ),
                DiffBaseView::Comparison { base, target } => {
                    &&& request is Some
                    &&& request->0 is Comparison
                    &&& request->0->Comparison_repo == repo
                    &&& request->0->base == base
                    &&& match request->0->target {
                        GitComparisonTargetView::Revision(revision) => target
                            == ComparisonTargetView::Revision(revision),
                        GitComparisonTargetView::Index => target == ComparisonTargetView::Index,
                        GitComparisonTargetView::Worktree => target
                            == ComparisonTargetView::Worktree,
                    }
                },
            }
        }),
{
}

/// A reload without a repository drops the diffs and asks for nothing. The rest of the list
/// stays as it is.
pub proof fn law_reload_without_a_repository(list: DiffBufferListView)
    requires
        list.repo is None,
    ensures
        ({
            let (after, request) = list.after_request();
            &&& request is None
            &&& after.tree_diff is None
            &&& after.comparison_diff is None
            &&& after.diff_base == list.diff_base
            &&& after.repo == list.repo
            &&& after.base_commit == list.base_commit
            &&& after.head_commit == list.head_commit
            &&& after.load_error == list.load_error
            &&& after.tree_diff_update_needed == list.tree_diff_update_needed
            &&& after.tree_diff_base_task == list.tree_diff_base_task
        }),
{
}

/// A diff that has come takes the place of both kinds of diff and of the last failure. The
/// observers are told, and what shows the list is drawn anew. The rest of the list stays as it
/// is.
pub proof fn law_reloaded_diffs_are_kept(
    list: DiffBufferListView,
    tree: TreeDiffView,
    files: Seq<CommitFileView>,
)
    ensures
        ({
            let (with_tree, tree_effects) = list.after_reload(ReloadedDiffView::Tree(tree));
            let (with_files, files_effects) = list.after_reload(
                ReloadedDiffView::Comparison(files),
            );
            &&& with_tree.tree_diff == Some(tree)
            &&& with_tree.comparison_diff is None
            &&& with_files.tree_diff is None
            &&& with_files.comparison_diff == Some(files)
            &&& is_reload_of(with_tree, list)
            &&& is_reload_of(with_files, list)
            &&& tells_and_draws(tree_effects)
            &&& tells_and_draws(files_effects)
        }),
{
}

/// A list is another after a reload: all but the diffs is the same, and no failure is left.
pub open spec fn is_reload_of(after: DiffBufferListView, list: DiffBufferListView) -> bool {
    &&& after.diff_base == list.diff_base
    &&& after.repo == list.repo
    &&& after.base_commit == list.base_commit
    &&& after.head_commit == list.head_commit
    &&& after.load_error is None
    &&& after.tree_diff_update_needed == list.tree_diff_update_needed
    &&& after.tree_diff_base_task == list.tree_diff_base_task
}

/// The observers are told that the files changed, and what shows the list is drawn anew.
pub open spec fn tells_and_draws(effects: Effects) -> bool {
    &&& effects.event == Some(BranchDiffEvent::FileListChanged)
    &&& !effects.update
    &&& effects.notify
    &&& effects.task == TaskChange::Keep
}

/// A failed reload leaves its error and changes nothing else. The observers are told, and what
/// shows the list is drawn anew.
pub proof fn law_failures_are_shown(list: DiffBufferListView, error: Seq<char>)
    ensures
        ({
            let (after, effects) = list.after_failure(error);
            &&& same_contents(after, list)
            &&& after.load_error == Some(error)
            &&& after.tree_diff_update_needed == list.tree_diff_update_needed
            &&& after.tree_diff_base_task == list.tree_diff_base_task
            &&& tells_and_draws(effects)
        }),
{
}

/// The end of the reload task marks the task, if there is one, and changes nothing else.
pub proof fn law_ended_tasks_are_ready(list: DiffBufferListView)
    ensures
        ({
            let after = list.after_task();
            &&& same_contents(after, list)
            &&& after.load_error == list.load_error
            &&& after.tree_diff_update_needed == list.tree_diff_update_needed
            &&& list.tree_diff_base_task is None <==> after.tree_diff_base_task is None
            &&& after.tree_diff_base_task is Some ==> after.tree_diff_base_task->0.is_ready
        }),
{
}

/// A list is valid exactly where it keeps at most one diff, where the paths of its tree diff are
/// those with an entry, each once, and where only a base that needs a diff has a reload asked
/// for or under way.
pub proof fn law_valid_lists(list: DiffBufferListView)
    ensures
        list.wf() <==> {
            &&& list.tree_diff is None || list.comparison_diff is None
            &&& list.tree_diff_update_needed || list.tree_diff_base_task is Some
                ==> list.diff_base is Merge || list.diff_base is Comparison
            &&& list.tree_diff is Some ==> {
                &&& list.tree_diff->0.paths.no_duplicates()
                &&& forall|path: Seq<char>|
                    list.tree_diff->0.paths.contains(path)
                        <==> #[trigger] list.tree_diff->0.entries.contains_key(path)
            }
        },
{
}

} // verus!
