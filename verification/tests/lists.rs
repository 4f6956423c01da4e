use git_diff_buffers::base::{
    ComparisonTarget, DiffBase, DiffTreeType, GitComparisonTarget, ReloadRequest, RepositoryRef,
};
use git_diff_buffers::diff::{CommitDiff, CommitFile, CommitFileStatus, Oid, TreeDiff, TreeDiffStatus};
use git_diff_buffers::event::{
    Branch, BranchDiffEvent, BufferLocation, DiffBuffer, Effects, GitStoreEvent, ReloadedDiff,
    RepositoryEvent, RepositoryState, TaskChange,
};
use git_diff_buffers::list::DiffBufferList;
use git_diff_buffers::load::{BufferLoad, DiffSource};
use git_diff_buffers::path::{ProjectPath, ProjectPaths, RepoPath, WorktreeId};
use git_diff_buffers::status::{
    FileStatus, MergedChanges, ReportedStatus, StatusCode, StatusEntry, TrackedStatus,
};

const REPO: RepositoryRef = RepositoryRef { entity_id: 10, id: 1 };
const OTHER_REPO: RepositoryRef = RepositoryRef { entity_id: 20, id: 2 };
const OLD: Oid = Oid { bytes: [1; 20] };

const NOTHING: Effects =
    Effects { event: None, update: false, notify: false, task: TaskChange::Keep };
const STARTED: Effects =
    Effects { event: None, update: false, notify: true, task: TaskChange::Start };

const CHANGES: MergedChanges = MergedChanges { added: true, modified: true, deleted: true };

fn path(text: &str) -> RepoPath {
    RepoPath { text: text.to_string() }
}

fn merge_base() -> DiffBase {
    DiffBase::Merge { base_ref: "refs/heads/main".to_string() }
}

fn comparison() -> DiffBase {
    DiffBase::Comparison { base: "v1".to_string(), target: ComparisonTarget::Index }
}

fn codes(index_status: StatusCode, worktree_status: StatusCode) -> FileStatus {
    FileStatus::TrackedFile(TrackedStatus { index_status, worktree_status })
}

fn entry(text: &str, status: FileStatus, staged: bool, unstaged: bool) -> StatusEntry {
    StatusEntry {
        repo_path: path(text),
        status: ReportedStatus {
            status,
            is_deleted: false,
            has_changes: staged || unstaged,
            has_staged: staged,
            has_unstaged: unstaged,
        },
    }
}

fn held(texts: &[&str]) -> ProjectPaths {
    let mut paths = ProjectPaths::new();
    for text in texts {
        let project_path =
            ProjectPath { worktree_id: WorktreeId { id: 1 }, path: text.to_string() };
        paths.insert(&path(text), project_path);
    }
    paths
}

fn listed(buffers: &[DiffBuffer]) -> Vec<(&str, FileStatus)> {
    buffers
        .iter()
        .map(|buffer| (buffer.repo_path.as_unix_str(), buffer.file_status))
        .collect()
}

fn state(branch: Option<(&str, Option<&str>)>, head: Option<&str>) -> RepositoryState {
    RepositoryState {
        branch: branch.map(|(ref_name, commit)| Branch {
            ref_name: ref_name.to_string(),
            most_recent_commit: commit.map(|commit| commit.to_string()),
        }),
        head_commit: head.map(|head| head.to_string()),
    }
}

fn tree(entries: &[(&str, TreeDiffStatus)]) -> ReloadedDiff {
    let mut diff = TreeDiff::new();
    for (text, status) in entries {
        diff.insert(path(text), *status);
    }
    ReloadedDiff::Tree(diff)
}

#[test]
fn bases_know_their_kind() {
    assert!(merge_base().is_merge_base());
    assert!(!merge_base().is_comparison());
    assert!(comparison().is_comparison());
    assert!(!comparison().is_merge_base());
    for base in [DiffBase::Head, DiffBase::Index, DiffBase::Staged] {
        assert!(!base.is_merge_base() && !base.is_comparison());
    }
}

#[test]
fn bases_compare_by_their_contents() {
    assert_eq!(merge_base(), merge_base().clone());
    assert_ne!(merge_base(), DiffBase::Merge { base_ref: "other".to_string() });
    assert_eq!(comparison(), comparison().clone());
    let revision = ComparisonTarget::Revision("v2".to_string());
    assert_ne!(
        comparison(),
        DiffBase::Comparison { base: "v1".to_string(), target: revision.clone() }
    );
    assert_ne!(revision, ComparisonTarget::Revision("v3".to_string()));
    assert_ne!(DiffBase::Head, DiffBase::Index);
}

#[test]
fn new_list_is_blank() {
    let list = DiffBufferList::new(merge_base(), Some(REPO));
    assert_eq!(list.diff_base(), &merge_base());
    assert_eq!(list.repo(), Some(REPO));
    assert_eq!(list.load_error(), None);
    assert!(!list.is_tree_base_loading());
    assert!(list.load_buffers(&vec![], CHANGES, &held(&[])).is_empty());
}

#[test]
fn events_of_the_git_store() {
    let update = Effects {
        event: Some(BranchDiffEvent::FileListChanged),
        update: true,
        notify: false,
        task: TaskChange::Keep,
    };
    let mut list = DiffBufferList::new(merge_base(), Some(REPO));
    let statuses = GitStoreEvent::RepositoryUpdated(1, RepositoryEvent::StatusesChanged);
    let head = GitStoreEvent::RepositoryUpdated(1, RepositoryEvent::HeadChanged);
    let foreign = GitStoreEvent::RepositoryUpdated(2, RepositoryEvent::HeadChanged);
    let other = GitStoreEvent::RepositoryUpdated(1, RepositoryEvent::Other);
    let active = GitStoreEvent::ActiveRepositoryChanged(Some(2));
    assert_eq!(list.handle_git_store_event(&statuses), update);
    assert_eq!(list.handle_git_store_event(&head), update);
    assert_eq!(list.handle_git_store_event(&foreign), NOTHING);
    assert_eq!(list.handle_git_store_event(&other), NOTHING);
    assert_eq!(list.handle_git_store_event(&active), NOTHING);
    assert_eq!(list.handle_git_store_event(&GitStoreEvent::Other), NOTHING);

    let mut list = DiffBufferList::new(merge_base(), None);
    assert_eq!(list.handle_git_store_event(&statuses), NOTHING);
    assert_eq!(
        list.handle_git_store_event(&GitStoreEvent::ActiveRepositoryChanged(None)),
        NOTHING
    );
    assert_eq!(list.handle_git_store_event(&active), update);
}

#[test]
fn concerned_lists_reload_at_the_next_update() {
    let mut list = DiffBufferList::new(merge_base(), Some(REPO));
    let quiet = state(None, None);
    assert_eq!(list.handle_status_updates(None, &quiet), NOTHING);
    list.handle_git_store_event(&GitStoreEvent::RepositoryUpdated(
        1,
        RepositoryEvent::StatusesChanged,
    ));
    assert_eq!(list.handle_status_updates(None, &quiet), STARTED);
    assert!(list.is_tree_base_loading());
    assert_eq!(list.handle_status_updates(None, &quiet), NOTHING);
}

#[test]
fn setting_the_repository() {
    let changed = Effects {
        event: Some(BranchDiffEvent::FileListChanged),
        update: true,
        notify: false,
        task: TaskChange::Cancel,
    };
    let mut list = DiffBufferList::new(merge_base(), Some(REPO));
    list.spawn_reload_tree_diff();
    list.finish_reload(tree(&[("a", TreeDiffStatus::Added)]));
    list.fail_reload("broken".to_string());
    let same = RepositoryRef { entity_id: 99, id: 1 };
    assert_eq!(list.set_repo(Some(same)), NOTHING);
    assert_eq!(list.repo(), Some(REPO));
    assert_eq!(list.set_repo(Some(OTHER_REPO)), changed);
    assert_eq!(list.repo(), Some(OTHER_REPO));
    assert_eq!(list.load_error(), None);
    assert!(!list.is_tree_base_loading());
    assert!(list.load_buffers(&vec![], CHANGES, &held(&["a"])).is_empty());
    assert_eq!(list.set_repo(None), changed);
    assert_eq!(list.set_repo(None), NOTHING);
}

#[test]
fn setting_the_base() {
    let mut list = DiffBufferList::new(DiffBase::Head, Some(REPO));
    assert_eq!(list.set_diff_base(DiffBase::Head), NOTHING);
    let changed = |update: bool| Effects {
        event: Some(BranchDiffEvent::DiffBaseChanged),
        update,
        notify: false,
        task: TaskChange::Cancel,
    };
    assert_eq!(list.set_diff_base(DiffBase::Staged), changed(false));
    assert_eq!(list.set_diff_base(comparison()), changed(true));
    assert_eq!(list.set_diff_base(comparison()), NOTHING);
    assert_eq!(list.diff_base(), &comparison());
    assert_eq!(list.handle_status_updates(None, &state(None, None)), STARTED);
}

#[test]
fn updates_follow_the_commits() {
    let mut list = DiffBufferList::new(merge_base(), Some(REPO));
    let first = state(Some(("refs/heads/main", Some("c1"))), Some("h1"));
    assert_eq!(list.handle_status_updates(None, &first), STARTED);
    assert_eq!(list.handle_status_updates(None, &first), NOTHING);
    let moved_base = state(Some(("refs/heads/main", Some("c2"))), Some("h1"));
    assert_eq!(list.handle_status_updates(None, &moved_base), STARTED);
    let other_branch = state(Some(("refs/heads/topic", Some("c3"))), Some("h1"));
    assert_eq!(list.handle_status_updates(None, &other_branch), NOTHING);
    let no_commit = state(Some(("refs/heads/main", None)), Some("h1"));
    assert_eq!(list.handle_status_updates(None, &no_commit), NOTHING);
    let moved_head = state(None, Some("h2"));
    assert_eq!(list.handle_status_updates(None, &moved_head), STARTED);
    let no_head = state(None, None);
    assert_eq!(list.handle_status_updates(None, &no_head), STARTED);
}

#[test]
fn updates_take_the_active_repository() {
    let nowhere = state(None, Some("h1"));
    let mut list = DiffBufferList::new(merge_base(), None);
    assert_eq!(list.handle_status_updates(None, &nowhere), NOTHING);
    assert_eq!(list.handle_status_updates(Some(REPO), &nowhere), STARTED);
    assert_eq!(list.repo(), Some(REPO));
    let mut list = DiffBufferList::new(DiffBase::Head, None);
    assert_eq!(list.handle_status_updates(Some(REPO), &nowhere), NOTHING);
    assert_eq!(list.repo(), Some(REPO));
    assert_eq!(list.handle_status_updates(Some(OTHER_REPO), &nowhere), NOTHING);
    assert_eq!(list.repo(), Some(REPO));
}

#[test]
fn only_diff_bases_reload() {
    for base in [DiffBase::Head, DiffBase::Index, DiffBase::Staged] {
        let mut list = DiffBufferList::new(base, Some(REPO));
        assert_eq!(list.spawn_reload_tree_diff(), NOTHING);
        assert!(!list.is_tree_base_loading());
        assert_eq!(list.reload_tree_diff(), None);
    }
}

#[test]
fn reload_requests() {
    let mut list = DiffBufferList::new(merge_base(), Some(REPO));
    let trees = DiffTreeType::MergeBase {
        base: "refs/heads/main".to_string(),
        head: "HEAD".to_string(),
    };
    assert_eq!(list.reload_tree_diff(), Some(ReloadRequest::Tree { repo: REPO, trees }));
    let cases = [
        (
            ComparisonTarget::Revision("v2".to_string()),
            GitComparisonTarget::Revision("v2".to_string()),
        ),
        (ComparisonTarget::Index, GitComparisonTarget::Index),
        (ComparisonTarget::Worktree, GitComparisonTarget::Worktree),
    ];
    for (target, git_target) in cases {
        let base = DiffBase::Comparison { base: "v1".to_string(), target };
        let mut list = DiffBufferList::new(base, Some(REPO));
        assert_eq!(
            list.reload_tree_diff(),
            Some(ReloadRequest::Comparison {
                repo: REPO,
                base: "v1".to_string(),
                target: git_target,
            })
        );
    }
    let mut list = DiffBufferList::new(merge_base(), None);
    assert_eq!(list.reload_tree_diff(), None);
}

#[test]
fn reload_lifecycle() {
    let told = Effects {
        event: Some(BranchDiffEvent::FileListChanged),
        update: false,
        notify: true,
        task: TaskChange::Keep,
    };
    let paths = held(&["a"]);
    let mut list = DiffBufferList::new(merge_base(), Some(REPO));
    assert_eq!(list.spawn_reload_tree_diff(), STARTED);
    assert!(list.is_tree_base_loading());
    assert_eq!(list.finish_reload(tree(&[("a", TreeDiffStatus::Added)])), told);
    assert!(list.is_tree_base_loading());
    list.end_reload_task();
    assert!(!list.is_tree_base_loading());
    assert_eq!(list.load_buffers(&vec![], CHANGES, &paths).len(), 1);

    assert_eq!(list.spawn_reload_tree_diff(), STARTED);
    assert_eq!(list.fail_reload("no such revision".to_string()), told);
    list.end_reload_task();
    assert_eq!(list.load_error().map(|error| error.as_str()), Some("no such revision"));
    assert_eq!(list.load_buffers(&vec![], CHANGES, &paths).len(), 1);

    assert_eq!(list.spawn_reload_tree_diff(), STARTED);
    assert_eq!(list.load_error(), None);
}

#[test]
fn reload_without_a_repository_drops_the_diff() {
    let mut list = DiffBufferList::new(merge_base(), None);
    list.finish_reload(tree(&[("a", TreeDiffStatus::Added)]));
    let location = BufferLocation { repo: REPO, path: path("a"), status: None };
    assert_eq!(list.reload_tree_diff(), None);
    list.handle_status_updates(Some(REPO), &state(None, None));
    assert_eq!(list.status_for_buffer_id(Some(&location)), None);
}

#[test]
fn status_of_a_buffer() {
    let mut list = DiffBufferList::new(merge_base(), Some(REPO));
    list.finish_reload(tree(&[("a", TreeDiffStatus::Modified { old: OLD })]));
    let modified = codes(StatusCode::Modified, StatusCode::Modified);
    let at = |repo, text, status| BufferLocation { repo, path: path(text), status };
    let untracked = entry("a", FileStatus::Untracked, false, true).status;
    assert_eq!(list.status_for_buffer_id(None), None);
    assert_eq!(list.status_for_buffer_id(Some(&at(REPO, "a", None))), Some(modified));
    assert_eq!(
        list.status_for_buffer_id(Some(&at(REPO, "a", Some(untracked)))),
        Some(modified)
    );
    assert_eq!(
        list.status_for_buffer_id(Some(&at(REPO, "b", Some(untracked)))),
        Some(FileStatus::Untracked)
    );
    assert_eq!(list.status_for_buffer_id(Some(&at(OTHER_REPO, "a", None))), None);
    let twin = RepositoryRef { entity_id: 11, id: 1 };
    assert_eq!(list.status_for_buffer_id(Some(&at(twin, "a", None))), None);
}

#[test]
fn head_lists_reported_changes() {
    let changed = codes(StatusCode::Unmodified, StatusCode::Modified);
    let statuses = vec![
        entry("b", changed, false, true),
        entry("same", codes(StatusCode::Unmodified, StatusCode::Unmodified), false, false),
        entry("a", FileStatus::Untracked, false, true),
        entry("outside", changed, false, true),
    ];
    let list = DiffBufferList::new(DiffBase::Head, Some(REPO));
    let buffers = list.load_buffers(&statuses, CHANGES, &held(&["a", "b", "same"]));
    assert_eq!(listed(&buffers), vec![("b", changed), ("a", FileStatus::Untracked)]);
    let list = DiffBufferList::new(DiffBase::Head, None);
    assert!(list.load_buffers(&statuses, CHANGES, &held(&["a", "b"])).is_empty());
}

#[test]
fn index_and_staged_lists() {
    let staged = codes(StatusCode::Modified, StatusCode::Unmodified);
    let partly = codes(StatusCode::Modified, StatusCode::Modified);
    let unstaged = codes(StatusCode::Unmodified, StatusCode::Modified);
    let statuses = vec![
        entry("staged", staged, true, false),
        entry("partly", partly, true, true),
        entry("unstaged", unstaged, false, true),
    ];
    let paths = held(&["staged", "partly", "unstaged"]);
    let index = DiffBufferList::new(DiffBase::Index, Some(REPO));
    let buffers = index.load_buffers(&statuses, CHANGES, &paths);
    assert_eq!(listed(&buffers), vec![("partly", partly), ("unstaged", unstaged)]);
    let stage = DiffBufferList::new(DiffBase::Staged, Some(REPO));
    let buffers = stage.load_buffers(&statuses, CHANGES, &paths);
    assert_eq!(listed(&buffers), vec![("staged", staged), ("partly", partly)]);
    assert!(matches!(
        buffers[0].load,
        BufferLoad::OpenBuffer { source: DiffSource::Staged, conflict_set: false, .. }
    ));
}

#[test]
fn merge_list_waits_for_its_diff() {
    let changed = codes(StatusCode::Unmodified, StatusCode::Modified);
    let statuses = vec![entry("a", changed, false, true)];
    let list = DiffBufferList::new(merge_base(), Some(REPO));
    assert!(list.load_buffers(&statuses, CHANGES, &held(&["a"])).is_empty());
    let list = DiffBufferList::new(comparison(), Some(REPO));
    assert!(list.load_buffers(&statuses, CHANGES, &held(&["a"])).is_empty());
}

#[test]
fn merge_list_joins_statuses_and_tree_diff() {
    let changed = codes(StatusCode::Unmodified, StatusCode::Modified);
    let deleted = codes(StatusCode::Unmodified, StatusCode::Deleted);
    let mut gone = entry("gone", deleted, false, true);
    gone.status.is_deleted = true;
    let statuses = vec![entry("both", changed, false, true), gone];
    let mut list = DiffBufferList::new(merge_base(), Some(REPO));
    list.finish_reload(tree(&[
        ("tree_only", TreeDiffStatus::Deleted { old: OLD }),
        ("gone", TreeDiffStatus::Added),
        ("both", TreeDiffStatus::Modified { old: OLD }),
        ("outside", TreeDiffStatus::Added),
    ]));
    let paths = held(&["both", "gone", "tree_only"]);
    let buffers = list.load_buffers(&statuses, CHANGES, &paths);
    assert_eq!(
        listed(&buffers),
        vec![
            ("both", changed),
            ("tree_only", codes(StatusCode::Deleted, StatusCode::Deleted)),
        ]
    );
    for buffer in &buffers {
        assert!(matches!(
            buffer.load,
            BufferLoad::OpenBuffer {
                source: DiffSource::Since { oid: Some(OLD), repo: REPO },
                conflict_set: true,
                ..
            }
        ));
    }
    assert_eq!(
        list.candidate_paths(&statuses),
        vec![
            path("both"),
            path("gone"),
            path("tree_only"),
            path("gone"),
            path("both"),
            path("outside"),
        ]
    );
}

#[test]
fn unchanged_report_with_a_difference_from_the_merge_base_is_listed() {
    let unmodified = codes(StatusCode::Unmodified, StatusCode::Unmodified);
    let statuses = vec![entry("a", unmodified, false, false)];
    let mut list = DiffBufferList::new(merge_base(), Some(REPO));
    list.finish_reload(tree(&[("a", TreeDiffStatus::Added)]));
    let buffers = list.load_buffers(&statuses, CHANGES, &held(&["a"]));
    assert_eq!(listed(&buffers), vec![("a", unmodified)]);
}

#[test]
fn comparison_list() {
    let file = |text: &str, status| CommitFile {
        path: path(text),
        status,
        old_oid: Some(OLD),
        new_oid: None,
        is_binary: false,
    };
    let mut list = DiffBufferList::new(comparison(), Some(REPO));
    list.finish_reload(ReloadedDiff::Comparison(CommitDiff {
        files: vec![
            file("b", CommitFileStatus::Renamed),
            file("outside", CommitFileStatus::Added),
            file("a", CommitFileStatus::Deleted),
        ],
    }));
    let reported = vec![entry("c", FileStatus::Untracked, false, true)];
    let buffers = list.load_buffers(&reported, CHANGES, &held(&["a", "b", "c"]));
    assert_eq!(
        listed(&buffers),
        vec![
            ("b", codes(StatusCode::Renamed, StatusCode::Unmodified)),
            ("a", codes(StatusCode::Deleted, StatusCode::Unmodified)),
        ]
    );
    assert!(matches!(buffers[0].load, BufferLoad::LoadOldBlob { oid: OLD, .. }));
    assert_eq!(
        list.candidate_paths(&reported),
        vec![path("b"), path("outside"), path("a")]
    );
}

#[test]
fn first_reload_follows_the_base() {
    let bases =
        [DiffBase::Head, DiffBase::Index, DiffBase::Staged, merge_base(), comparison()];
    for base in bases {
        let needed = base.is_merge_base() || base.is_comparison();
        let mut list = DiffBufferList::new(base, Some(REPO));
        let expected = if needed { STARTED } else { NOTHING };
        assert_eq!(list.spawn_reload_tree_diff(), expected);
        assert_eq!(list.is_tree_base_loading(), needed);
        assert_eq!(list.load_error(), None);
    }
}

#[test]
fn updates_settle_after_a_takeover() {
    let seen = state(Some(("refs/heads/main", Some("c1"))), Some("h1"));
    let mut list = DiffBufferList::new(merge_base(), None);
    assert_eq!(list.handle_status_updates(Some(REPO), &seen), STARTED);
    assert_eq!(list.handle_status_updates(Some(REPO), &seen), STARTED);
    assert_eq!(list.handle_status_updates(Some(REPO), &seen), NOTHING);
}

#[test]
fn buffer_status_agrees_with_the_list() {
    let changed = codes(StatusCode::Unmodified, StatusCode::Modified);
    let item = entry("a", changed, false, true);
    let mut list = DiffBufferList::new(merge_base(), Some(REPO));
    list.finish_reload(tree(&[("a", TreeDiffStatus::Added)]));
    let location = BufferLocation { repo: REPO, path: path("a"), status: Some(item.status) };
    assert_eq!(
        list.status_for_buffer_id(Some(&location)),
        Some(codes(StatusCode::Added, StatusCode::Added))
    );
    let buffers = list.load_buffers(&vec![item], CHANGES, &held(&["a"]));
    assert_eq!(listed(&buffers), vec![("a", changed)]);
}

#[test]
fn backend_says_which_merged_statuses_have_changes() {
    let changed = codes(StatusCode::Unmodified, StatusCode::Modified);
    let statuses = vec![
        entry("added", changed, false, true),
        entry("modified", changed, false, true),
        entry("deleted", FileStatus::Ignored, false, false),
        entry("plain", changed, false, true),
    ];
    let mut list = DiffBufferList::new(merge_base(), Some(REPO));
    list.finish_reload(tree(&[
        ("added", TreeDiffStatus::Added),
        ("modified", TreeDiffStatus::Modified { old: OLD }),
        ("deleted", TreeDiffStatus::Deleted { old: OLD }),
    ]));
    let paths = held(&["added", "modified", "deleted", "plain"]);
    let names = |added, modified, deleted| {
        let changes = MergedChanges { added, modified, deleted };
        let buffers = list.load_buffers(&statuses, changes, &paths);
        buffers
            .iter()
            .map(|buffer| buffer.repo_path.as_unix_str().to_string())
            .collect::<Vec<String>>()
    };
    assert_eq!(names(true, true, true), vec!["added", "modified", "deleted", "plain"]);
    assert_eq!(names(true, false, false), vec!["added", "plain"]);
    assert_eq!(names(false, true, false), vec!["modified", "plain"]);
    assert_eq!(names(false, false, true), vec!["deleted", "plain"]);
}
