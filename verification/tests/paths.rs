use git_diff_buffers::diff::{Oid, TreeDiff, TreeDiffStatus};
use git_diff_buffers::path::{ProjectPath, ProjectPaths, RepoPath, WorktreeId};

fn path(text: &str) -> RepoPath {
    RepoPath { text: text.to_string() }
}

#[test]
fn file_name_is_the_last_component() {
    assert_eq!(path("src/git/status.rs").file_name(), Some("status.rs"));
    assert_eq!(path("README.md").file_name(), Some("README.md"));
    assert_eq!(path("docs/größe/ü.txt").file_name(), Some("ü.txt"));
    assert_eq!(path("").file_name(), None);
}

#[test]
fn paths_compare_by_their_text() {
    assert_eq!(path("a/b"), path("a/b"));
    assert_ne!(path("a/b"), path("a/c"));
    assert_eq!(path("a/b").clone().as_unix_str(), "a/b");
}

#[test]
fn project_paths_read_back_what_was_recorded() {
    let first = ProjectPath { worktree_id: WorktreeId { id: 1 }, path: "b".to_string() };
    let second = ProjectPath { worktree_id: WorktreeId { id: 2 }, path: "c".to_string() };
    let mut paths = ProjectPaths::new();
    assert_eq!(paths.get(&path("a/b")), None);
    paths.insert(&path("a/b"), first.clone());
    assert_eq!(paths.get(&path("a/b")), Some(&first));
    assert_eq!(paths.get(&path("a")), None);
    paths.insert(&path("a/b"), second.clone());
    assert_eq!(paths.get(&path("a/b")), Some(&second));
}

#[test]
fn tree_diff_reads_back_and_keeps_its_order() {
    let old = Oid { bytes: [7; 20] };
    let mut diff = TreeDiff::new();
    assert_eq!(diff.len(), 0);
    diff.insert(path("b"), TreeDiffStatus::Added);
    diff.insert(path("a"), TreeDiffStatus::Deleted { old });
    diff.insert(path("b"), TreeDiffStatus::Modified { old });
    assert_eq!(diff.len(), 2);
    assert_eq!(diff.path(0), &path("b"));
    assert_eq!(diff.path(1), &path("a"));
    assert_eq!(diff.get(&path("b")), Some(&TreeDiffStatus::Modified { old }));
    assert_eq!(diff.get(&path("a")), Some(&TreeDiffStatus::Deleted { old }));
    assert_eq!(diff.get(&path("c")), None);
}

#[test]
fn old_contents_of_a_difference() {
    let old = Oid { bytes: [9; 20] };
    assert_eq!(TreeDiffStatus::Added.old_oid(), None);
    assert_eq!(TreeDiffStatus::Modified { old }.old_oid(), Some(old));
    assert_eq!(TreeDiffStatus::Deleted { old }.old_oid(), Some(old));
}
