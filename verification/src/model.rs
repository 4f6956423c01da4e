//! What a list of diff buffers is and how it changes, in mathematical terms.

use crate::base::diff_request;
use crate::base::ComparisonTargetView;
use crate::base::DiffBaseView;
use crate::base::ReloadRequestView;
use crate::base::RepositoryRef;
use crate::diff::CommitFileView;
use crate::diff::TreeDiffStatus;
use crate::diff::TreeDiffView;
use crate::event::BranchDiffEvent;
use crate::event::DiffBufferView;
use crate::event::Effects;
use crate::event::GitStoreEvent;
use crate::event::ReloadTask;
use crate::event::ReloadedDiffView;
use crate::event::RepositoryEvent;
use crate::event::RepositoryStateView;
use crate::event::TaskChange;
use crate::load::comparison_load;
use crate::load::worktree_load;
use crate::path::ProjectPathView;
use crate::select::select;
use crate::status::comparison_status;
use crate::status::merged_status;
use crate::status::shows_change;
use crate::status::tree_status;
use crate::status::FileStatus;
use crate::status::MergedChanges;
use crate::status::ReportedStatus;
use crate::status::StatusEntryView;
use vstd::prelude::*;

verus! {

/// The state of a list.
pub struct DiffBufferListView {
    pub diff_base: DiffBaseView,
    pub repo: Option<RepositoryRef>,
    /// The commit that the merge base's branch was last seen at.
    pub base_commit: Option<Seq<char>>,
    /// The commit that HEAD was last seen at.
    pub head_commit: Option<Seq<char>>,
    pub tree_diff: Option<TreeDiffView>,
    pub comparison_diff: Option<Seq<CommitFileView>>,
    pub load_error: Option<Seq<char>>,
    /// The diff is to be reloaded at the next status update.
    pub tree_diff_update_needed: bool,
    pub tree_diff_base_task: Option<ReloadTask>,
}

impl DiffBufferListView {
    /// What holds of every list: at most one diff is kept, each path of a tree diff is walked
    /// once, and a reload is asked for or under way only where the base needs a diff.
    pub open spec fn wf(self) -> bool {
        &&& !(self.tree_diff is Some && self.comparison_diff is Some)
        &&& self.tree_diff is Some ==> self.tree_diff->0.wf()
        &&& self.tree_diff_update_needed ==> self.diff_base.needs_diff()
        &&& self.tree_diff_base_task is Some ==> self.diff_base.needs_diff()
    }

    /// A new list.
    pub open spec fn init(base: DiffBaseView, repo: Option<RepositoryRef>) -> DiffBufferListView {
        DiffBufferListView {
            diff_base: base,
            repo,
            base_commit: None,
            head_commit: None,
            tree_diff: None,
            comparison_diff: None,
            load_error: None,
            tree_diff_update_needed: false,
            tree_diff_base_task: None,
        }
    }

    /// A list on another base or repository: nothing that was loaded is kept, and a reload is
    /// due where the base needs a diff.
    pub open spec fn reset(
        base: DiffBaseView,
        repo: Option<RepositoryRef>,
    ) -> DiffBufferListView {
        DiffBufferListView {
            tree_diff_update_needed: base.needs_diff(),
            ..DiffBufferListView::init(base, repo)
        }
    }

    /// An event of the git store concerns the list: the list has no repository and one became
    /// active, or the statuses or the HEAD of its own repository changed.
    pub open spec fn is_concerned(self, event: GitStoreEvent) -> bool {
        match event {
            GitStoreEvent::ActiveRepositoryChanged(id) => self.repo is None && id is Some,
            GitStoreEvent::RepositoryUpdated(id, RepositoryEvent::StatusesChanged)
            | GitStoreEvent::RepositoryUpdated(id, RepositoryEvent::HeadChanged) => {
                self.repo is Some && self.repo->0.id == id
            },
            _ => false,
        }
    }

    /// The list and the effects after an event of the git store.
    pub open spec fn after_event(self, event: GitStoreEvent) -> (DiffBufferListView, Effects) {
        if self.is_concerned(event) {
            (
                DiffBufferListView {
                    tree_diff_update_needed: self.diff_base.needs_diff(),
                    ..self
                },
                Effects {
                    event: Some(BranchDiffEvent::FileListChanged),
                    update: true,
                    ..Effects::nothing()
                },
            )
        } else {
            (self, Effects::nothing())
        }
    }

    /// Two lists' repositories are the same: neither is set, or both have the same identifier.
    pub open spec fn same_repo(left: Option<RepositoryRef>, right: Option<RepositoryRef>) -> bool {
        match (left, right) {
            (Some(left), Some(right)) => left.id == right.id,
            (None, None) => true,
            _ => false,
        }
    }

    /// The list and the effects after its repository is set.
    pub open spec fn after_set_repo(self, repo: Option<RepositoryRef>) -> (
        DiffBufferListView,
        Effects,
    ) {
        if DiffBufferListView::same_repo(self.repo, repo) {
            (self, Effects::nothing())
        } else {
            (
                DiffBufferListView::reset(self.diff_base, repo),
                Effects {
                    event: Some(BranchDiffEvent::FileListChanged),
                    update: true,
                    notify: false,
                    task: TaskChange::Cancel,
                },
            )
        }
    }

    /// The list and the effects after its base is set.
    pub open spec fn after_set_base(self, base: DiffBaseView) -> (DiffBufferListView, Effects) {
        if self.diff_base == base {
            (self, Effects::nothing())
        } else {
            (
                DiffBufferListView::reset(base, self.repo),
                Effects {
                    event: Some(BranchDiffEvent::DiffBaseChanged),
                    update: base.needs_diff(),
                    notify: false,
                    task: TaskChange::Cancel,
                },
            )
        }
    }

    /// The list and the effects after a reload is started. A base that needs no diff has none
    /// to reload.
    pub open spec fn after_spawn(self) -> (DiffBufferListView, Effects) {
        if self.diff_base.needs_diff() {
            (
                DiffBufferListView {
                    tree_diff_base_task: Some(ReloadTask { is_ready: false }),
                    load_error: None,
                    ..self
                },
                Effects { event: None, update: false, notify: true, task: TaskChange::Start },
            )
        } else {
            (self, Effects::nothing())
        }
    }

    /// The commit of the merge base's branch, where that branch is checked out and its commit
    /// is not the one last seen.
    pub open spec fn moved_base(self, state: RepositoryStateView) -> Option<Seq<char>> {
        match (self.diff_base, state.branch) {
            (DiffBaseView::Merge { base_ref }, Some(branch)) => {
                if branch.ref_name == base_ref && branch.most_recent_commit is Some
                    && self.base_commit != branch.most_recent_commit {
                    branch.most_recent_commit
                } else {
                    None
                }
            },
            _ => None,
        }
    }

    /// What a status update makes of the list, and whether the diff is to be reloaded: a list
    /// without a repository takes the active one, and a list with one follows the commits.
    pub open spec fn observe(
        self,
        active_repo: Option<RepositoryRef>,
        state: RepositoryStateView,
    ) -> (DiffBufferListView, bool) {
        let seen = DiffBufferListView { tree_diff_update_needed: false, ..self };
        if self.repo is None {
            (
                DiffBufferListView { repo: active_repo, ..seen },
                self.tree_diff_update_needed || active_repo is Some,
            )
        } else {
            let moved = self.moved_base(state);
            (
                DiffBufferListView {
                    base_commit: if moved is Some {
                        moved
                    } else {
                        self.base_commit
                    },
                    head_commit: state.head_commit,
                    ..seen
                },
                self.tree_diff_update_needed || moved is Some || state.head_commit
                    != self.head_commit,
            )
        }
    }

    /// The list and the effects after a status update.
    pub open spec fn after_update(
        self,
        active_repo: Option<RepositoryRef>,
        state: RepositoryStateView,
    ) -> (DiffBufferListView, Effects) {
        let (seen, reload) = self.observe(active_repo, state);
        if reload {
            seen.after_spawn()
        } else {
            (seen, Effects::nothing())
        }
    }

    /// The list after a reload has begun, and what to ask the repository for. Without a
    /// repository no diff is kept.
    pub open spec fn after_request(self) -> (DiffBufferListView, Option<ReloadRequestView>) {
        match self.repo {
            None => (
                DiffBufferListView { tree_diff: None, comparison_diff: None, ..self },
                None,
            ),
            Some(repo) => (self, diff_request(repo, self.diff_base)),
        }
    }

    /// The list and the effects after the diff has come.
    pub open spec fn after_reload(self, diff: ReloadedDiffView) -> (DiffBufferListView, Effects) {
        (
            DiffBufferListView {
                tree_diff: match diff {
                    ReloadedDiffView::Tree(diff) => Some(diff),
                    ReloadedDiffView::Comparison(_) => None,
                },
                comparison_diff: match diff {
                    ReloadedDiffView::Tree(_) => None,
                    ReloadedDiffView::Comparison(diff) => Some(diff),
                },
                load_error: None,
                ..self
            },
            Effects {
                event: Some(BranchDiffEvent::FileListChanged),
                update: false,
                notify: true,
                task: TaskChange::Keep,
            },
        )
    }

    /// The list and the effects after a reload has failed. The diff that was there is kept.
    pub open spec fn after_failure(self, error: Seq<char>) -> (DiffBufferListView, Effects) {
        (
            DiffBufferListView { load_error: Some(error), ..self },
            Effects {
                event: Some(BranchDiffEvent::FileListChanged),
                update: false,
                notify: true,
                task: TaskChange::Keep,
            },
        )
    }

    /// The list after the reload task has run to its end.
    pub open spec fn after_task(self) -> DiffBufferListView {
        DiffBufferListView {
            tree_diff_base_task: match self.tree_diff_base_task {
                Some(_) => Some(ReloadTask { is_ready: true }),
                None => None,
            },
            ..self
        }
    }

    /// How a path differs from the merge base, as far as a tree diff is there.
    pub open spec fn branch_diff(self, path: Seq<char>) -> Option<TreeDiffStatus> {
        match self.tree_diff {
            Some(diff) => diff.get(path),
            None => None,
        }
    }

    /// The status of a file in a repository, from its status against HEAD there. A file of
    /// another repository has none.
    pub open spec fn buffer_status(
        self,
        repo: RepositoryRef,
        path: Seq<char>,
        status: Option<ReportedStatus>,
    ) -> Option<FileStatus> {
        if self.repo is Some && self.repo->0.entity_id == repo.entity_id {
            merged_status(status, self.branch_diff(path))
        } else {
            None
        }
    }

    /// The status that decides whether a file with a reported status is listed. A comparison
    /// does not list by reported statuses.
    pub open spec fn listed_status(self, entry: StatusEntryView) -> Option<FileStatus> {
        match self.diff_base {
            DiffBaseView::Head | DiffBaseView::Merge { .. } => merged_status(
                Some(entry.status),
                self.branch_diff(entry.repo_path),
            ),
            DiffBaseView::Index if entry.status.has_unstaged => Some(entry.status.status),
            DiffBaseView::Staged if entry.status.has_staged => Some(entry.status.status),
            _ => None,
        }
    }

    /// What is listed for a file with a reported status. It is listed with that status where it
    /// has a change to show and the project holds the file.
    pub open spec fn status_buffer(
        self,
        repo: RepositoryRef,
        changes: MergedChanges,
        paths: Map<Seq<char>, ProjectPathView>,
        entry: StatusEntryView,
    ) -> Option<DiffBufferView> {
        let path = entry.repo_path;
        let found = self.listed_status(entry);
        if found is Some && shows_change(entry.status, changes, found->0) && paths.contains_key(
            path,
        ) {
            Some(
                DiffBufferView {
                    repo_path: path,
                    file_status: entry.status.status,
                    load: worktree_load(
                        self.diff_base,
                        self.branch_diff(path),
                        paths[path],
                        repo,
                    ),
                },
            )
        } else {
            None
        }
    }

    /// What is listed for a path of the tree diff: the difference from the merge base, where no
    /// status is reported of the path and the project holds the file.
    pub open spec fn tree_buffer(
        self,
        repo: RepositoryRef,
        paths: Map<Seq<char>, ProjectPathView>,
        entries: Seq<StatusEntryView>,
        path: Seq<char>,
    ) -> Option<DiffBufferView> {
        let branch_diff = self.branch_diff(path);
        if branch_diff is Some && !is_reported(entries, path) && paths.contains_key(path) {
            Some(
                DiffBufferView {
                    repo_path: path,
                    file_status: tree_status(branch_diff->0),
                    load: worktree_load(self.diff_base, branch_diff, paths[path], repo),
                },
            )
        } else {
            None
        }
    }

    /// The files that are listed by their reported status, in the order of the reports.
    pub open spec fn status_buffers(
        self,
        repo: RepositoryRef,
        changes: MergedChanges,
        paths: Map<Seq<char>, ProjectPathView>,
        entries: Seq<StatusEntryView>,
    ) -> Seq<DiffBufferView> {
        select(entries, |entry: StatusEntryView| self.status_buffer(repo, changes, paths, entry))
    }

    /// The files that are listed by the tree diff alone, in the order in which it is walked.
    pub open spec fn tree_buffers(
        self,
        repo: RepositoryRef,
        paths: Map<Seq<char>, ProjectPathView>,
        entries: Seq<StatusEntryView>,
    ) -> Seq<DiffBufferView> {
        match self.tree_diff {
            Some(diff) => select(
                diff.paths,
                |path: Seq<char>| self.tree_buffer(repo, paths, entries, path),
            ),
            None => Seq::empty(),
        }
    }

    /// The files that may be listed.
    pub open spec fn candidates(self, entries: Seq<StatusEntryView>) -> Seq<Seq<char>> {
        if self.diff_base is Comparison {
            match self.comparison_diff {
                Some(files) => file_paths(files),
                None => Seq::empty(),
            }
        } else {
            entry_paths(entries) + (match self.tree_diff {
                Some(diff) => diff.paths,
                None => Seq::empty(),
            })
        }
    }

    /// The base needs a diff that has not come yet.
    pub open spec fn is_waiting(self) -> bool {
        ||| self.diff_base is Merge && self.tree_diff is None
        ||| self.diff_base is Comparison && self.comparison_diff is None
    }

    /// The files that are listed.
    pub open spec fn buffers(
        self,
        entries: Seq<StatusEntryView>,
        changes: MergedChanges,
        paths: Map<Seq<char>, ProjectPathView>,
    ) -> Seq<DiffBufferView> {
        if self.repo is None || self.is_waiting() {
            Seq::empty()
        } else {
            match self.diff_base {
                DiffBaseView::Comparison { target, .. } => comparison_buffers(
                    target,
                    self.repo->0,
                    paths,
                    self.comparison_diff->0,
                ),
                _ => self.status_buffers(self.repo->0, changes, paths, entries) + self.tree_buffers(
                    self.repo->0,
                    paths,
                    entries,
                ),
            }
        }
    }
}

/// The paths of reported statuses.
pub open spec fn entry_paths(entries: Seq<StatusEntryView>) -> Seq<Seq<char>> {
    entries.map_values(|entry: StatusEntryView| entry.repo_path)
}

/// The paths of the files of a comparison.
pub open spec fn file_paths(files: Seq<CommitFileView>) -> Seq<Seq<char>> {
    files.map_values(|file: CommitFileView| file.path)
}

/// A status is reported of a path.
pub open spec fn is_reported(entries: Seq<StatusEntryView>, path: Seq<char>) -> bool {
    exists|i: int| 0 <= i < entries.len() && (#[trigger] entries[i]).repo_path == path
}

/// What is listed for a file of a comparison, where the project holds the file.
pub open spec fn comparison_buffer(
    target: ComparisonTargetView,
    repo: RepositoryRef,
    paths: Map<Seq<char>, ProjectPathView>,
    file: CommitFileView,
) -> Option<DiffBufferView> {
    if paths.contains_key(file.path) {
        Some(
            DiffBufferView {
                repo_path: file.path,
                file_status: comparison_status(file.status),
                load: comparison_load(target, file, paths[file.path], repo),
            },
        )
    } else {
        None
    }
}

/// The files that are listed of a comparison, in its order.
pub open spec fn comparison_buffers(
    target: ComparisonTargetView,
    repo: RepositoryRef,
    paths: Map<Seq<char>, ProjectPathView>,
    files: Seq<CommitFileView>,
) -> Seq<DiffBufferView> {
    select(files, |file: CommitFileView| comparison_buffer(target, repo, paths, file))
}

} // verus!
