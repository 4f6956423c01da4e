//! The list of diff buffers: its state, what changes it, and the files it lists.
//!
//! Each operation gives back the effects that its caller has to carry out.

use crate::base::make_request;
use crate::base::request_view;
use crate::base::ComparisonTarget;
use crate::base::DiffBase;
use crate::base::ReloadRequest;
use crate::base::RepositoryRef;
use crate::diff::path_texts;
use crate::diff::CommitDiff;
use crate::diff::CommitFileView;
use crate::diff::TreeDiff;
use crate::diff::TreeDiffStatus;
use crate::event::buffer_views;
use crate::event::entry_views;
use crate::event::BranchDiffEvent;
use crate::event::BufferLocation;
use crate::event::DiffBuffer;
use crate::event::DiffBufferView;
use crate::event::Effects;
use crate::event::GitStoreEvent;
use crate::event::ReloadTask;
use crate::event::ReloadedDiff;
use crate::event::RepositoryEvent;
use crate::event::RepositoryState;
use crate::event::TaskChange;
use crate::load::load_buffer;
use crate::load::load_comparison_buffer;
use crate::load::text_view;
use crate::model::comparison_buffer;
use crate::model::comparison_buffers;
use crate::model::entry_paths;
use crate::model::file_paths;
use crate::model::is_reported;
use crate::model::DiffBufferListView;
use crate::path::ProjectPaths;
use crate::path::RepoPath;
use crate::select::lemma_select_step;
use crate::select::select;
use crate::status::comparison_file_status;
use crate::status::diff_status_to_file_status;
use crate::status::has_change_to_show;
use crate::status::merge;
use crate::status::merged_status;
use crate::status::shows_change;
use crate::status::FileStatus;
use crate::status::MergedChanges;
use crate::status::ReportedStatus;
use crate::status::StatusEntry;
use crate::status::StatusEntryView;
use vstd::hash_set::StringHashSet;
use vstd::prelude::*;

verus! {

/// A list of diff buffers.
pub struct DiffBufferList {
    diff_base: DiffBase,
    repo: Option<RepositoryRef>,
    base_commit: Option<String>,
    head_commit: Option<String>,
    tree_diff: Option<TreeDiff>,
    comparison_diff: Option<CommitDiff>,
    load_error: Option<String>,
    tree_diff_update_needed: bool,
    tree_diff_base_task: Option<ReloadTask>,
}

impl View for DiffBufferList {
    type V = DiffBufferListView;

    closed spec fn view(&self) -> DiffBufferListView {
        DiffBufferListView {
            diff_base: self.diff_base@,
            repo: self.repo,
            base_commit: text_view(self.base_commit),
            head_commit: text_view(self.head_commit),
            tree_diff: match self.tree_diff {
                Some(diff) => Some(diff@),
                None => None,
            },
            comparison_diff: match self.comparison_diff {
                Some(diff) => Some(diff@),
                None => None,
            },
            load_error: text_view(self.load_error),
            tree_diff_update_needed: self.tree_diff_update_needed,
            tree_diff_base_task: self.tree_diff_base_task,
        }
    }
}

impl DiffBufferList {
    /// A list on a base, for the repository that is active.
    pub fn new(source: DiffBase, active_repo: Option<RepositoryRef>) -> (r: Self)
        ensures
            r@ == DiffBufferListView::init(source@, active_repo),
            r@.wf(),
    {
        DiffBufferList {
            diff_base: source,
            repo: active_repo,
            base_commit: None,
            head_commit: None,
            tree_diff: None,
            comparison_diff: None,
            load_error: None,
            tree_diff_update_needed: false,
            tree_diff_base_task: None,
        }
    }

    /// Handles an event of the git store.
    pub fn handle_git_store_event(&mut self, event: &GitStoreEvent) -> (r: Effects)
        ensures
            (final(self)@, r) == old(self)@.after_event(*event),
            old(self)@.wf() ==> final(self)@.wf(),
    {
        let should_update = match event {
            GitStoreEvent::ActiveRepositoryChanged(new_repo_id) => self.repo.is_none()
                && new_repo_id.is_some(),
            GitStoreEvent::RepositoryUpdated(
                event_repo_id,
                RepositoryEvent::StatusesChanged | RepositoryEvent::HeadChanged,
            ) => match self.repo {
                Some(repo) => repo.id == *event_repo_id,
                None => false,
            },
            _ => false,
        };
        if should_update {
            self.tree_diff_update_needed = self.diff_base.needs_diff();
            Effects {
                event: Some(BranchDiffEvent::FileListChanged),
                update: true,
                notify: false,
                task: TaskChange::Keep,
            }
        } else {
            Effects::none()
        }
    }

    /// What the files are compared with.
    pub fn diff_base(&self) -> (r: &DiffBase)
        ensures
            r@ == self@.diff_base,
    {
        &self.diff_base
    }

    /// The repository whose files are listed.
    pub fn repo(&self) -> (r: Option<RepositoryRef>)
        ensures
            r == self@.repo,
    {
        self.repo
    }

    /// Why the last reload failed, if it did.
    pub fn load_error(&self) -> (r: Option<&String>)
        ensures
            match r {
                Some(error) => self@.load_error == Some(error@),
                None => self@.load_error is None,
            },
    {
        self.load_error.as_ref()
    }

    /// A reload is under way.
    pub fn is_tree_base_loading(&self) -> (r: bool)
        ensures
            r == (self@.tree_diff_base_task matches Some(task) && !task.is_ready),
    {
        match self.tree_diff_base_task {
            Some(task) => !task.is_ready,
            None => false,
        }
    }

    /// Sets the repository. What was loaded of another one is dropped.
    pub fn set_repo(&mut self, repo: Option<RepositoryRef>) -> (r: Effects)
        ensures
            (final(self)@, r) == old(self)@.after_set_repo(repo),
            old(self)@.wf() ==> final(self)@.wf(),
    {
        let same_repo = match (self.repo, repo) {
            (Some(current), Some(new)) => current.id == new.id,
            (None, None) => true,
            _ => false,
        };
        if same_repo {
            return Effects::none();
        }
        self.repo = repo;
        self.tree_diff = None;
        self.comparison_diff = None;
        self.load_error = None;
        self.tree_diff_update_needed = self.diff_base.needs_diff();
        self.tree_diff_base_task = None;
        self.base_commit = None;
        self.head_commit = None;
        Effects {
            event: Some(BranchDiffEvent::FileListChanged),
            update: true,
            notify: false,
            task: TaskChange::Cancel,
        }
    }

    /// Sets the base. What was loaded for another one is dropped.
    pub fn set_diff_base(&mut self, diff_base: DiffBase) -> (r: Effects)
        ensures
            (final(self)@, r) == old(self)@.after_set_base(diff_base@),
            old(self)@.wf() ==> final(self)@.wf(),
    {
        if self.diff_base == diff_base {
            return Effects::none();
        }
        self.tree_diff_update_needed = diff_base.needs_diff();
        self.tree_diff = None;
        self.comparison_diff = None;
        self.load_error = None;
        self.tree_diff_base_task = None;
        self.diff_base = diff_base;
        self.base_commit = None;
        self.head_commit = None;
        Effects {
            event: Some(BranchDiffEvent::DiffBaseChanged),
            update: self.tree_diff_update_needed,
            notify: false,
            task: TaskChange::Cancel,
        }
    }

    /// Starts a reload of the diff, where the base needs one.
    pub fn spawn_reload_tree_diff(&mut self) -> (r: Effects)
        ensures
            (final(self)@, r) == old(self)@.after_spawn(),
            old(self)@.wf() ==> final(self)@.wf(),
    {
        if !self.diff_base.is_merge_base() && !self.diff_base.is_comparison() {
            return Effects::none();
        }
        self.tree_diff_base_task = Some(ReloadTask { is_ready: false });
        self.load_error = None;
        Effects { event: None, update: false, notify: true, task: TaskChange::Start }
    }

    /// Handles a status update. `active_repo` is read only by a list without a repository,
    /// `repo_state`, the state of the list's repository, only by a list with one.
    pub fn handle_status_updates(
        &mut self,
        active_repo: Option<RepositoryRef>,
        repo_state: &RepositoryState,
    ) -> (r: Effects)
        ensures
            (final(self)@, r) == old(self)@.after_update(active_repo, repo_state@),
            old(self)@.wf() ==> final(self)@.wf(),
    {
        let mut needs_update = self.tree_diff_update_needed;
        self.tree_diff_update_needed = false;
        if self.repo.is_none() {
            if active_repo.is_some() {
                self.repo = active_repo;
                needs_update = true;
            }
        } else {
            if let Some(commit) = self.find_moved_base(repo_state) {
                self.base_commit = Some(commit);
                needs_update = true;
            }
            if !same_text(&repo_state.head_commit, &self.head_commit) {
                self.head_commit = clone_text(&repo_state.head_commit);
                needs_update = true;
            }
        }
        if needs_update {
            self.spawn_reload_tree_diff()
        } else {
            Effects::none()
        }
    }

    fn find_moved_base(&self, repo_state: &RepositoryState) -> (r: Option<String>)
        ensures
            text_view(r) == self@.moved_base(repo_state@),
    {
        if let Some(branch) = &repo_state.branch {
            if let DiffBase::Merge { base_ref } = &self.diff_base {
                if let Some(commit) = &branch.most_recent_commit {
                    if branch.ref_name == *base_ref && !same_text(
                        &self.base_commit,
                        &branch.most_recent_commit,
                    ) {
                        return Some(commit.clone());
                    }
                }
            }
        }
        None
    }

    /// Begins a reload: what to ask the repository for. `None` where there is nothing to ask.
    pub fn reload_tree_diff(&mut self) -> (r: Option<ReloadRequest>)
        ensures
            (final(self)@, request_view(r)) == old(self)@.after_request(),
            old(self)@.wf() ==> final(self)@.wf(),
    {
        match self.repo {
            None => {
                self.tree_diff = None;
                self.comparison_diff = None;
                None
            },
            Some(repo) => make_request(repo, &self.diff_base),
        }
    }

    /// Takes over the diff that was asked for.
    pub fn finish_reload(&mut self, diff: ReloadedDiff) -> (r: Effects)
        ensures
            (final(self)@, r) == old(self)@.after_reload(diff@),
            old(self)@.wf() ==> final(self)@.wf(),
    {
        match diff {
            ReloadedDiff::Tree(diff) => {
                proof {
                    use_type_invariant(&diff);
                }
                self.tree_diff = Some(diff);
                self.comparison_diff = None;
            },
            ReloadedDiff::Comparison(diff) => {
                self.comparison_diff = Some(diff);
                self.tree_diff = None;
            },
        }
        self.load_error = None;
        Effects {
            event: Some(BranchDiffEvent::FileListChanged),
            update: false,
            notify: true,
            task: TaskChange::Keep,
        }
    }

    /// Records that a reload failed.
    pub fn fail_reload(&mut self, error: String) -> (r: Effects)
        ensures
            (final(self)@, r) == old(self)@.after_failure(error@),
            old(self)@.wf() ==> final(self)@.wf(),
    {
        self.load_error = Some(error);
        Effects {
            event: Some(BranchDiffEvent::FileListChanged),
            update: false,
            notify: true,
            task: TaskChange::Keep,
        }
    }

    /// Records that the reload task has run to its end.
    pub fn end_reload_task(&mut self)
        ensures
            final(self)@ == old(self)@.after_task(),
            old(self)@.wf() ==> final(self)@.wf(),
    {
        if self.tree_diff_base_task.is_some() {
            self.tree_diff_base_task = Some(ReloadTask { is_ready: true });
        }
    }

    /// Takes the status of a file against HEAD and its difference from the merge base together.
    pub fn merge_statuses(
        &self,
        diff_from_head: Option<ReportedStatus>,
        diff_from_merge_base: Option<&TreeDiffStatus>,
    ) -> (r: Option<FileStatus>)
        ensures
            r == merged_status(
                diff_from_head,
                match diff_from_merge_base {
                    Some(status) => Some(*status),
                    None => None,
                },
            ),
    {
        merge(diff_from_head, diff_from_merge_base)
    }

    /// The status of the file of a buffer, `None` if the file is not in the list's repository
    /// or has nothing to show.
    pub fn status_for_buffer_id(&self, location: Option<&BufferLocation>) -> (r: Option<FileStatus>)
        ensures
            r == (match location {
                Some(location) => self@.buffer_status(
                    location.repo,
                    location.path@,
                    location.status,
                ),
                None => None,
            }),
    {
        let location = match location {
            Some(location) => location,
            None => return None,
        };
        if let Some(repo) = self.repo {
            if repo.entity_id == location.repo.entity_id {
                return self.merge_statuses(location.status, self.find_branch_diff(&location.path));
            }
        }
        None
    }

    fn find_branch_diff(&self, path: &RepoPath) -> (r: Option<&TreeDiffStatus>)
        ensures
            self@.branch_diff(path@) == (match r {
                Some(status) => Some(*status),
                None => None,
            }),
    {
        match &self.tree_diff {
            Some(diff) => diff.get(path),
            None => None,
        }
    }

    /// The files whose place in the project decides what is listed.
    pub fn candidate_paths(&self, cached_status: &Vec<StatusEntry>) -> (r: Vec<RepoPath>)
        ensures
            path_texts(r@) == self@.candidates(entry_views(cached_status@)),
    {
        let mut paths: Vec<RepoPath> = Vec::new();
        let mut i: usize = 0;
        if self.diff_base.is_comparison() {
            if let Some(diff) = &self.comparison_diff {
                let ghost texts = file_paths(diff@);
                while i < diff.files.len()
                    invariant
                        i <= diff.files@.len(),
                        texts == file_paths(diff@),
                        path_texts(paths@) =~= texts.take(i as int),
                    decreases diff.files@.len() - i,
                {
                    let ghost before = paths@;
                    paths.push(diff.files[i].path.clone());
                    assert(path_texts(paths@) =~= path_texts(before).push(paths@.last()@));
                    assert(texts.take(i + 1) =~= texts.take(i as int).push(texts[i as int]));
                    i = i + 1;
                }
                assert(texts.take(i as int) =~= texts);
            }
            assert(path_texts(paths@) =~= self@.candidates(entry_views(cached_status@)));
            return paths;
        }
        let ghost reported = entry_paths(entry_views(cached_status@));
        while i < cached_status.len()
            invariant
                i <= cached_status@.len(),
                reported == entry_paths(entry_views(cached_status@)),
                path_texts(paths@) =~= reported.take(i as int),
            decreases cached_status@.len() - i,
        {
            let ghost before = paths@;
            paths.push(cached_status[i].repo_path.clone());
            assert(path_texts(paths@) =~= path_texts(before).push(paths@.last()@));
            assert(reported.take(i + 1) =~= reported.take(i as int).push(reported[i as int]));
            i = i + 1;
        }
        assert(path_texts(paths@) =~= reported);
        if let Some(diff) = &self.tree_diff {
            let mut j: usize = 0;
            while j < diff.len()
                invariant
                    j <= diff@.paths.len(),
                    path_texts(paths@) =~= reported + diff@.paths.take(j as int),
                decreases diff@.paths.len() - j,
            {
                let ghost before = paths@;
                paths.push(diff.path(j).clone());
                assert(path_texts(paths@) =~= path_texts(before).push(paths@.last()@));
                assert(diff@.paths.take(j + 1) =~= diff@.paths.take(j as int).push(diff@.paths[j as int]));
                j = j + 1;
            }
        }
        assert(path_texts(paths@) =~= self@.candidates(entry_views(cached_status@)));
        paths
    }

    /// The files to list, from the statuses that the repository reports, from which merged
    /// statuses have changes, and from where the project holds its files. Nothing is listed
    /// without a repository, or while the diff that the base needs is not there.
    pub fn load_buffers(
        &self,
        cached_status: &Vec<StatusEntry>,
        merged_changes: MergedChanges,
        project_paths: &ProjectPaths,
    ) -> (r: Vec<DiffBuffer>)
        ensures
            buffer_views(r@) == self@.buffers(
                entry_views(cached_status@),
                merged_changes,
                project_paths@,
            ),
    {
        let repo = match self.repo {
            Some(repo) => repo,
            None => {
                let output: Vec<DiffBuffer> = Vec::new();
                assert(buffer_views(output@) =~= Seq::<DiffBufferView>::empty());
                return output;
            },
        };
        if (self.diff_base.is_merge_base() && self.tree_diff.is_none()) || (
        self.diff_base.is_comparison() && self.comparison_diff.is_none()) {
            let output: Vec<DiffBuffer> = Vec::new();
            assert(buffer_views(output@) =~= Seq::<DiffBufferView>::empty());
            return output;
        }
        if let DiffBase::Comparison { base: _, target } = &self.diff_base {
            if let Some(diff) = &self.comparison_diff {
                return list_comparison(target, repo, project_paths, diff);
            }
        }
        let mut output = self.list_reported(repo, merged_changes, project_paths, cached_status);
        if let Some(diff) = &self.tree_diff {
            let seen = reported_paths(cached_status);
            let mut rest = self.list_tree(repo, project_paths, cached_status, &seen, diff);
            let ghost first = output@;
            let ghost second = rest@;
            output.append(&mut rest);
            assert(buffer_views(first + second) =~= buffer_views(first) + buffer_views(second));
        } else {
            assert(buffer_views(output@) + Seq::<DiffBufferView>::empty() =~= buffer_views(
                output@,
            ));
        }
        output
    }

    /// Whether a file with a reported status is listed, as far as its status decides.
    fn is_listed(&self, changes: MergedChanges, item: &StatusEntry) -> (r: bool)
        requires
            !(self@.diff_base is Comparison),
        ensures
            r == (self@.listed_status(item@) is Some && shows_change(
                item.status,
                changes,
                self@.listed_status(item@)->0,
            )),
    {
        let found = match &self.diff_base {
            DiffBase::Head | DiffBase::Merge { .. } => self.merge_statuses(
                Some(item.status),
                self.find_branch_diff(&item.repo_path),
            ),
            DiffBase::Index => if item.status.has_unstaged {
                Some(item.status.status)
            } else {
                None
            },
            DiffBase::Staged => if item.status.has_staged {
                Some(item.status.status)
            } else {
                None
            },
            DiffBase::Comparison { .. } => vstd::pervasive::unreached(),
        };
        match found {
            Some(status) => has_change_to_show(item.status, changes, status),
            None => false,
        }
    }

    fn list_reported(
        &self,
        repo: RepositoryRef,
        changes: MergedChanges,
        project_paths: &ProjectPaths,
        cached_status: &Vec<StatusEntry>,
    ) -> (r: Vec<DiffBuffer>)
        requires
            !(self@.diff_base is Comparison),
        ensures
            buffer_views(r@) == self@.status_buffers(
                repo,
                changes,
                project_paths@,
                entry_views(cached_status@),
            ),
    {
        let mut output: Vec<DiffBuffer> = Vec::new();
        let ghost entries = entry_views(cached_status@);
        let ghost pick = |entry: StatusEntryView|
            self@.status_buffer(repo, changes, project_paths@, entry);
        let mut i: usize = 0;
        assert(entries.take(0).map_values(pick) =~= Seq::<Option<DiffBufferView>>::empty());
        assert(buffer_views(output@) =~= select(entries.take(0), pick));
        while i < cached_status.len()
            invariant
                i <= cached_status@.len(),
                entries == entry_views(cached_status@),
                pick == (|entry: StatusEntryView|
                    self@.status_buffer(repo, changes, project_paths@, entry)),
                !(self@.diff_base is Comparison),
                buffer_views(output@) == select(entries.take(i as int), pick),
            decreases cached_status@.len() - i,
        {
            let item = &cached_status[i];
            let ghost before = output@;
            proof {
                lemma_select_step(entries, pick, i as int);
                assert(entries[i as int] == item@);
            }
            if self.is_listed(changes, item) {
                if let Some(project_path) = project_paths.get(&item.repo_path) {
                    let branch_diff = match self.find_branch_diff(&item.repo_path) {
                        Some(status) => Some(*status),
                        None => None,
                    };
                    let load = load_buffer(&self.diff_base, branch_diff, project_path.clone(), repo);
                    output.push(
                        DiffBuffer {
                            repo_path: item.repo_path.clone(),
                            file_status: item.status.status,
                            load,
                        },
                    );
                    assert(buffer_views(output@) =~= buffer_views(before).push(output@.last()@));
                }
            }
            i = i + 1;
        }
        assert(entries.take(i as int) =~= entries);
        output
    }

    fn list_tree(
        &self,
        repo: RepositoryRef,
        project_paths: &ProjectPaths,
        cached_status: &Vec<StatusEntry>,
        seen: &StringHashSet,
        diff: &TreeDiff,
    ) -> (r: Vec<DiffBuffer>)
        requires
            !(self@.diff_base is Comparison),
            self@.tree_diff == Some(diff@),
            forall|path: Seq<char>| #[trigger]
                seen@.contains(path) <==> is_reported(entry_views(cached_status@), path),
        ensures
            buffer_views(r@) == self@.tree_buffers(
                repo,
                project_paths@,
                entry_views(cached_status@),
            ),
    {
        proof {
            use_type_invariant(diff);
        }
        let mut output: Vec<DiffBuffer> = Vec::new();
        let ghost entries = entry_views(cached_status@);
        let ghost pick = |path: Seq<char>| self@.tree_buffer(repo, project_paths@, entries, path);
        let mut i: usize = 0;
        assert(diff@.paths.take(0).map_values(pick) =~= Seq::<Option<DiffBufferView>>::empty());
        assert(buffer_views(output@) =~= select(diff@.paths.take(0), pick));
        while i < diff.len()
            invariant
                i <= diff@.paths.len(),
                entries == entry_views(cached_status@),
                pick == (|path: Seq<char>|
                    self@.tree_buffer(repo, project_paths@, entries, path)),
                !(self@.diff_base is Comparison),
                self@.tree_diff == Some(diff@),
                forall|path: Seq<char>| #[trigger]
                    seen@.contains(path) <==> is_reported(entries, path),
                buffer_views(output@) == select(diff@.paths.take(i as int), pick),
            decreases diff@.paths.len() - i,
        {
            let path = diff.path(i);
            let ghost before = output@;
            proof {
                lemma_select_step(diff@.paths, pick, i as int);
            }
            if !seen.contains(path.text.as_str()) {
                if let Some(project_path) = project_paths.get(path) {
                    if let Some(branch_diff) = diff.get(path) {
                        let load = load_buffer(
                            &self.diff_base,
                            Some(*branch_diff),
                            project_path.clone(),
                            repo,
                        );
                        output.push(
                            DiffBuffer {
                                repo_path: path.clone(),
                                file_status: diff_status_to_file_status(branch_diff),
                                load,
                            },
                        );
                        assert(buffer_views(output@) =~= buffer_views(before).push(
                            output@.last()@,
                        ));
                    }
                }
            }
            i = i + 1;
        }
        assert(diff@.paths.take(i as int) =~= diff@.paths);
        output
    }
}

/// The paths that a status is reported of.
fn reported_paths(cached_status: &Vec<StatusEntry>) -> (r: StringHashSet)
    ensures
        forall|path: Seq<char>| #[trigger]
            r@.contains(path) <==> is_reported(entry_views(cached_status@), path),
{
    let mut seen = StringHashSet::new();
    let ghost entries = entry_views(cached_status@);
    let mut i: usize = 0;
    while i < cached_status.len()
        invariant
            i <= cached_status@.len(),
            entries == entry_views(cached_status@),
            forall|path: Seq<char>| #[trigger]
                seen@.contains(path) <==> is_reported(entries.take(i as int), path),
        decreases cached_status@.len() - i,
    {
        let ghost before = seen@;
        seen.insert(cached_status[i].repo_path.text.clone());
        proof {
            let shorter = entries.take(i as int);
            let longer = entries.take(i + 1);
            assert(longer[i as int].repo_path == cached_status@[i as int].repo_path@);
            assert forall|path: Seq<char>| #[trigger]
                seen@.contains(path) <==> is_reported(longer, path) by {
                assert(before.contains(path) <==> is_reported(shorter, path));
                if is_reported(shorter, path) {
                    let k = choose|k: int|
                        0 <= k < shorter.len() && (#[trigger] shorter[k]).repo_path == path;
                    assert(longer[k].repo_path == path);
                }
                if is_reported(longer, path) {
                    let k = choose|k: int|
                        0 <= k < longer.len() && (#[trigger] longer[k]).repo_path == path;
                    if k < i {
                        assert(shorter[k].repo_path == path);
                    }
                }
            }
        }
        i = i + 1;
    }
    assert(entries.take(i as int) =~= entries);
    seen
}

fn list_comparison(
    target: &ComparisonTarget,
    repo: RepositoryRef,
    project_paths: &ProjectPaths,
    diff: &CommitDiff,
) -> (r: Vec<DiffBuffer>)
    ensures
        buffer_views(r@) == comparison_buffers(target@, repo, project_paths@, diff@),
{
    let mut output: Vec<DiffBuffer> = Vec::new();
    let ghost pick = |file: CommitFileView| comparison_buffer(target@, repo, project_paths@, file);
    let mut i: usize = 0;
    assert(diff@.take(0).map_values(pick) =~= Seq::<Option<DiffBufferView>>::empty());
    assert(buffer_views(output@) =~= select(diff@.take(0), pick));
    while i < diff.files.len()
        invariant
            i <= diff.files@.len(),
            pick == (|file: CommitFileView|
                comparison_buffer(target@, repo, project_paths@, file)),
            buffer_views(output@) == select(diff@.take(i as int), pick),
        decreases diff.files@.len() - i,
    {
        let file = &diff.files[i];
        let ghost before = output@;
        proof {
            lemma_select_step(diff@, pick, i as int);
            assert(diff@[i as int] == file@);
        }
        if let Some(project_path) = project_paths.get(&file.path) {
            let load = load_comparison_buffer(target, file, project_path.clone(), repo);
            output.push(
                DiffBuffer {
                    repo_path: file.path.clone(),
                    file_status: comparison_file_status(file.status),
                    load,
                },
            );
            assert(buffer_views(output@) =~= buffer_views(before).push(output@.last()@));
        }
        i = i + 1;
    }
    assert(diff@.take(i as int) =~= diff@);
    output
}

fn same_text(left: &Option<String>, right: &Option<String>) -> (r: bool)
    ensures
        r == (text_view(*left) == text_view(*right)),
{
    match (left, right) {
        (Some(left), Some(right)) => *left == *right,
        (None, None) => true,
        _ => false,
    }
}

fn clone_text(text: &Option<String>) -> (r: Option<String>)
    ensures
        r == *text,
{
    match text {
        Some(text) => Some(text.clone()),
        None => None,
    }
}

} // verus!
