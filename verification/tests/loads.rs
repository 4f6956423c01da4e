use git_diff_buffers::base::{ComparisonTarget, DiffBase, RepositoryRef};
use git_diff_buffers::comparison_file::DiskState;
use git_diff_buffers::diff::{CommitFile, CommitFileStatus, Oid, TreeDiffStatus};
use git_diff_buffers::load::{
    load_buffer, load_comparison_buffer, BufferHandle, BufferLoad, ConflictSetHandle, DiffHandle,
    DiffSource, LoadEvent, LoadedDiffBuffer,
};
use git_diff_buffers::path::{ProjectPath, RepoPath, WorktreeId};
use std::path::PathBuf;

const REPO: RepositoryRef = RepositoryRef { entity_id: 10, id: 1 };
const OLD: Oid = Oid { bytes: [1; 20] };
const NEW: Oid = Oid { bytes: [2; 20] };
const MAIN: BufferHandle = BufferHandle { id: 100 };
const INDEX: BufferHandle = BufferHandle { id: 101 };
const DIFF: DiffHandle = DiffHandle { id: 200 };
const CONFLICTS: ConflictSetHandle = ConflictSetHandle { id: 300 };

fn project_path() -> ProjectPath {
    ProjectPath { worktree_id: WorktreeId { id: 4 }, path: "src/main.rs".to_string() }
}

fn commit_file(status: CommitFileStatus, old: Option<Oid>, new: Option<Oid>) -> CommitFile {
    CommitFile {
        path: RepoPath { text: "app/src/main.rs".to_string() },
        status,
        old_oid: old,
        new_oid: new,
        is_binary: false,
    }
}

fn source_of(load: &BufferLoad) -> DiffSource {
    match load {
        BufferLoad::OpenBuffer { source, .. } => *source,
        other => panic!("not at its first step: {:?}", other),
    }
}

fn loaded(load: &BufferLoad) -> LoadedDiffBuffer {
    match load {
        BufferLoad::Loaded(loaded) => *loaded,
        other => panic!("not loaded: {:?}", other),
    }
}

#[test]
fn each_base_opens_its_diff() {
    let merge = DiffBase::Merge { base_ref: "main".to_string() };
    let modified = Some(TreeDiffStatus::Modified { old: OLD });
    let added = Some(TreeDiffStatus::Added);
    let deleted = Some(TreeDiffStatus::Deleted { old: NEW });
    let source =
        |base: &DiffBase, entry| source_of(&load_buffer(base, entry, project_path(), REPO));
    assert_eq!(source(&DiffBase::Head, modified), DiffSource::Uncommitted);
    assert_eq!(source(&DiffBase::Index, None), DiffSource::Unstaged);
    assert_eq!(source(&DiffBase::Staged, None), DiffSource::Staged);
    assert_eq!(source(&merge, None), DiffSource::Uncommitted);
    assert_eq!(source(&merge, added), DiffSource::Since { oid: None, repo: REPO });
    assert_eq!(source(&merge, modified), DiffSource::Since { oid: Some(OLD), repo: REPO });
    assert_eq!(source(&merge, deleted), DiffSource::Since { oid: Some(NEW), repo: REPO });
}

#[test]
fn head_load_ends_with_conflicts() {
    let load = load_buffer(&DiffBase::Head, None, project_path(), REPO)
        .advance(LoadEvent::BufferOpened(MAIN))
        .advance(LoadEvent::DiffOpened(DIFF))
        .advance(LoadEvent::ConflictSetOpened(CONFLICTS));
    assert_eq!(
        loaded(&load),
        LoadedDiffBuffer {
            display_buffer: MAIN,
            main_buffer: MAIN,
            diff: DIFF,
            conflict_set: Some(CONFLICTS),
        }
    );
}

#[test]
fn staged_load_shows_the_index() {
    let load = load_buffer(&DiffBase::Staged, None, project_path(), REPO)
        .advance(LoadEvent::BufferOpened(MAIN))
        .advance(LoadEvent::StagedDiffOpened { diff: DIFF, index_buffer: INDEX });
    assert_eq!(
        loaded(&load),
        LoadedDiffBuffer {
            display_buffer: INDEX,
            main_buffer: MAIN,
            diff: DIFF,
            conflict_set: None,
        }
    );
}

#[test]
fn events_of_another_step_change_nothing() {
    let load = load_buffer(&DiffBase::Staged, None, project_path(), REPO)
        .advance(LoadEvent::BlobLoaded("text".to_string()))
        .advance(LoadEvent::DiffOpened(DIFF));
    assert_eq!(source_of(&load), DiffSource::Staged);
    let load = load
        .advance(LoadEvent::BufferOpened(MAIN))
        .advance(LoadEvent::DiffOpened(DIFF));
    assert!(matches!(load, BufferLoad::OpenDiff { buffer: MAIN, .. }));
}

#[test]
fn comparison_with_the_work_tree_opens_the_file() {
    let file = commit_file(CommitFileStatus::Modified, Some(OLD), None);
    let target = ComparisonTarget::Worktree;
    let load = load_comparison_buffer(&target, &file, project_path(), REPO);
    assert_eq!(source_of(&load), DiffSource::Since { oid: Some(OLD), repo: REPO });
    let load = load
        .advance(LoadEvent::BufferOpened(MAIN))
        .advance(LoadEvent::DiffOpened(DIFF));
    assert_eq!(
        loaded(&load),
        LoadedDiffBuffer {
            display_buffer: MAIN,
            main_buffer: MAIN,
            diff: DIFF,
            conflict_set: None,
        }
    );
}

#[test]
fn comparison_of_revisions_reads_both_sides() {
    let file = commit_file(CommitFileStatus::Modified, Some(OLD), Some(NEW));
    let target = ComparisonTarget::Revision("v1.2".to_string());
    let load = load_comparison_buffer(&target, &file, project_path(), REPO);
    assert!(matches!(load, BufferLoad::LoadOldBlob { oid: OLD, .. }));
    let load = load.advance(LoadEvent::BlobLoaded("old\r\n".to_string()));
    assert!(matches!(load, BufferLoad::LoadNewBlob { oid: NEW, .. }));
    let load = load.advance(LoadEvent::BlobLoaded("new\r\n".to_string()));
    match &load {
        BufferLoad::PrepareSnapshot { old_text, new_text, .. } => {
            assert_eq!(old_text.as_deref(), Some("old\r\n"));
            assert_eq!(new_text, "new\r\n");
        }
        other => panic!("unexpected step: {:?}", other),
    }
    let load = load.advance(LoadEvent::SnapshotPrepared {
        old_text: Some("old\n".to_string()),
        new_text: "new\n".to_string(),
        full_path: PathBuf::from("/work/app/src/main.rs"),
    });
    match &load {
        BufferLoad::BuildSnapshot { base_text, text, file } => {
            assert_eq!(base_text.as_deref(), Some("old\n"));
            assert_eq!(text, "new\n");
            assert_eq!(file.file_name(), "v1.2 - main.rs");
            assert_eq!(file.path(), "src/main.rs");
            assert_eq!(file.full_path(), &PathBuf::from("/work/app/src/main.rs"));
            assert_eq!(file.worktree_id(), WorktreeId { id: 4 });
            assert_eq!(file.disk_state(), DiskState::Historic { was_deleted: false });
            assert!(file.can_open());
            assert!(!file.is_private());
            let proto = file.to_proto();
            assert_eq!(proto.worktree_id, 4);
            assert_eq!(proto.entry_id, None);
            assert_eq!(proto.path, "src/main.rs");
            assert_eq!(proto.mtime, None);
            assert!(!proto.is_deleted);
            assert!(proto.is_historic);
        }
        other => panic!("unexpected step: {:?}", other),
    }
    let load = load.advance(LoadEvent::SnapshotBuilt { buffer: MAIN, diff: DIFF });
    assert_eq!(
        loaded(&load),
        LoadedDiffBuffer {
            display_buffer: MAIN,
            main_buffer: MAIN,
            diff: DIFF,
            conflict_set: None,
        }
    );
}

#[test]
fn file_deleted_in_the_work_tree_is_built_from_its_old_side() {
    let file = commit_file(CommitFileStatus::Deleted, Some(OLD), None);
    let target = ComparisonTarget::Worktree;
    let load = load_comparison_buffer(&target, &file, project_path(), REPO)
        .advance(LoadEvent::BlobLoaded("gone".to_string()));
    match &load {
        BufferLoad::PrepareSnapshot { old_text, new_text, snapshot } => {
            assert_eq!(old_text.as_deref(), Some("gone"));
            assert_eq!(new_text, "");
            assert_eq!(snapshot.label, "working tree");
        }
        other => panic!("unexpected step: {:?}", other),
    }
    let load = load.advance(LoadEvent::SnapshotPrepared {
        old_text: Some("gone".to_string()),
        new_text: String::new(),
        full_path: PathBuf::from("/work"),
    });
    match &load {
        BufferLoad::BuildSnapshot { file, .. } => {
            assert_eq!(file.file_name(), "working tree - main.rs");
            assert_eq!(file.disk_state(), DiskState::Historic { was_deleted: true });
            assert!(file.to_proto().is_deleted);
        }
        other => panic!("unexpected step: {:?}", other),
    }
}

#[test]
fn file_added_in_the_index_has_no_base_text() {
    let file = commit_file(CommitFileStatus::Added, None, Some(NEW));
    let target = ComparisonTarget::Index;
    let load = load_comparison_buffer(&target, &file, project_path(), REPO);
    assert!(matches!(load, BufferLoad::LoadNewBlob { oid: NEW, old_text: None, .. }));
    let load = load.advance(LoadEvent::BlobLoaded("new".to_string()));
    let load = load.advance(LoadEvent::SnapshotPrepared {
        old_text: Some("made up".to_string()),
        new_text: "new".to_string(),
        full_path: PathBuf::from("/work"),
    });
    assert!(matches!(load, BufferLoad::PrepareSnapshot { old_text: None, .. }));
    let load = load.advance(LoadEvent::SnapshotPrepared {
        old_text: None,
        new_text: "new".to_string(),
        full_path: PathBuf::from("/work"),
    });
    match &load {
        BufferLoad::BuildSnapshot { base_text, file, .. } => {
            assert_eq!(*base_text, None);
            assert_eq!(file.file_name(), "index - main.rs");
        }
        other => panic!("unexpected step: {:?}", other),
    }
}

#[test]
fn binary_file_is_not_read() {
    let mut file = commit_file(CommitFileStatus::Modified, Some(OLD), Some(NEW));
    file.is_binary = true;
    let target = ComparisonTarget::Index;
    let load = load_comparison_buffer(&target, &file, project_path(), REPO);
    match &load {
        BufferLoad::PrepareSnapshot { old_text, new_text, .. } => {
            assert_eq!(*old_text, None);
            assert_eq!(new_text, "(binary file not shown)");
        }
        other => panic!("unexpected step: {:?}", other),
    }
    let load = load.advance(LoadEvent::SnapshotPrepared {
        old_text: None,
        new_text: "(binary file not shown)".to_string(),
        full_path: PathBuf::from("/work"),
    });
    match &load {
        BufferLoad::BuildSnapshot { file, .. } => assert!(!file.can_open()),
        other => panic!("unexpected step: {:?}", other),
    }
}
