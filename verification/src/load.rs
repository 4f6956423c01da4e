//! How the buffer of one file is loaded, step by step.
//!
//! A load names the outside work to do next. What came of it is handed back as an event, which
//! gives the next step, until the buffer is loaded.

use crate::base::ComparisonTarget;
use crate::base::ComparisonTargetView;
use crate::base::DiffBase;
use crate::base::DiffBaseView;
use crate::base::RepositoryRef;
use crate::comparison_file::ComparisonFile;
use crate::comparison_file::ComparisonFileView;
use crate::diff::CommitFile;
use crate::diff::CommitFileStatus;
use crate::diff::CommitFileView;
use crate::diff::Oid;
use crate::diff::TreeDiffStatus;
use crate::path::display_component;
use crate::path::ProjectPath;
use crate::path::ProjectPathView;
use crate::path::RepoPath;
use std::path::PathBuf;
use std::sync::Arc;
use vstd::prelude::*;

verus! {

/// A buffer of the editor.
#[derive(Clone, Copy, Debug, PartialEq, Eq, Structural)]
pub struct BufferHandle {
    pub id: u64,
}

/// A diff of the editor.
#[derive(Clone, Copy, Debug, PartialEq, Eq, Structural)]
pub struct DiffHandle {
    pub id: u64,
}

/// A set of conflicts of the editor.
#[derive(Clone, Copy, Debug, PartialEq, Eq, Structural)]
pub struct ConflictSetHandle {
    pub id: u64,
}

/// A loaded buffer: what to display, the buffer of the file, the diff between the two sides, and
/// the conflicts in the file where they are shown.
#[derive(Clone, Copy, Debug, PartialEq, Eq, Structural)]
pub struct LoadedDiffBuffer {
    pub display_buffer: BufferHandle,
    pub main_buffer: BufferHandle,
    pub diff: DiffHandle,
    pub conflict_set: Option<ConflictSetHandle>,
}

/// The diff to open for a buffer.
#[derive(Clone, Copy, Debug, PartialEq, Eq)]
pub enum DiffSource {
    /// From HEAD to the work tree.
    Uncommitted,
    /// From the index to the work tree.
    Unstaged,
    /// From HEAD to the index. Opening it also gives a buffer of the file in the index.
    Staged,
    /// From a stored object, or from nothing, to the work tree.
    Since { oid: Option<Oid>, repo: RepositoryRef },
}

/// What is known of a file that is shown as it is on the new side of a comparison.
#[derive(Debug)]
pub struct Snapshot {
    pub repo: RepositoryRef,
    pub repo_path: RepoPath,
    pub project_path: ProjectPath,
    /// What the new side is called.
    pub label: String,
    pub new_oid: Option<Oid>,
    pub is_binary: bool,
}

pub struct SnapshotView {
    pub repo: RepositoryRef,
    pub repo_path: Seq<char>,
    pub project_path: ProjectPathView,
    pub label: Seq<char>,
    pub new_oid: Option<Oid>,
    pub is_binary: bool,
}

impl View for Snapshot {
    type V = SnapshotView;

    open spec fn view(&self) -> SnapshotView {
        SnapshotView {
            repo: self.repo,
            repo_path: self.repo_path@,
            project_path: self.project_path@,
            label: self.label@,
            new_oid: self.new_oid,
            is_binary: self.is_binary,
        }
    }
}

/// A load of a buffer: the outside work to do next, and what is needed after it.
#[derive(Debug)]
pub enum BufferLoad {
    /// Open the file.
    OpenBuffer { project_path: ProjectPath, source: DiffSource, conflict_set: bool },
    /// Open the diff of the file's buffer.
    OpenDiff { buffer: BufferHandle, source: DiffSource, conflict_set: bool },
    /// Open the conflicts in the file's buffer.
    OpenConflictSet {
        display_buffer: BufferHandle,
        main_buffer: BufferHandle,
        diff: DiffHandle,
    },
    /// Read the contents on the old side.
    LoadOldBlob { oid: Oid, snapshot: Snapshot },
    /// Read the contents on the new side.
    LoadNewBlob { oid: Oid, old_text: Option<String>, snapshot: Snapshot },
    /// Normalize the line endings of the texts, and find the file's path in the file system.
    PrepareSnapshot { old_text: Option<String>, new_text: String, snapshot: Snapshot },
    /// Make a read-only buffer of the text, and its diff from the base text.
    BuildSnapshot { base_text: Option<String>, text: String, file: Arc<ComparisonFile> },
    /// Nothing: the buffer is loaded.
    Loaded(LoadedDiffBuffer),
}

pub enum BufferLoadView {
    OpenBuffer { project_path: ProjectPathView, source: DiffSource, conflict_set: bool },
    OpenDiff { buffer: BufferHandle, source: DiffSource, conflict_set: bool },
    OpenConflictSet {
        display_buffer: BufferHandle,
        main_buffer: BufferHandle,
        diff: DiffHandle,
    },
    LoadOldBlob { oid: Oid, snapshot: SnapshotView },
    LoadNewBlob { oid: Oid, old_text: Option<Seq<char>>, snapshot: SnapshotView },
    PrepareSnapshot { old_text: Option<Seq<char>>, new_text: Seq<char>, snapshot: SnapshotView },
    BuildSnapshot { base_text: Option<Seq<char>>, text: Seq<char>, file: ComparisonFileView },
    Loaded(LoadedDiffBuffer),
}

/// The view of a text that may be missing.
pub open spec fn text_view(text: Option<String>) -> Option<Seq<char>> {
    match text {
        Some(text) => Some(text@),
        None => None,
    }
}

impl View for BufferLoad {
    type V = BufferLoadView;

    open spec fn view(&self) -> BufferLoadView {
        match *self {
            BufferLoad::OpenBuffer { project_path, source, conflict_set } => {
                BufferLoadView::OpenBuffer { project_path: project_path@, source, conflict_set }
            },
            BufferLoad::OpenDiff { buffer, source, conflict_set } => {
                BufferLoadView::OpenDiff { buffer, source, conflict_set }
            },
            BufferLoad::OpenConflictSet { display_buffer, main_buffer, diff } => {
                BufferLoadView::OpenConflictSet { display_buffer, main_buffer, diff }
            },
            BufferLoad::LoadOldBlob { oid, snapshot } => {
                BufferLoadView::LoadOldBlob { oid, snapshot: snapshot@ }
            },
            BufferLoad::LoadNewBlob { oid, old_text, snapshot } => {
                BufferLoadView::LoadNewBlob {
                    oid,
                    old_text: text_view(old_text),
                    snapshot: snapshot@,
                }
            },
            BufferLoad::PrepareSnapshot { old_text, new_text, snapshot } => {
                BufferLoadView::PrepareSnapshot {
                    old_text: text_view(old_text),
                    new_text: new_text@,
                    snapshot: snapshot@,
                }
            },
            BufferLoad::BuildSnapshot { base_text, text, file } => {
                BufferLoadView::BuildSnapshot {
                    base_text: text_view(base_text),
                    text: text@,
                    file: file@,
                }
            },
            BufferLoad::Loaded(loaded) => BufferLoadView::Loaded(loaded),
        }
    }
}

/// What came of a step of a load.
#[derive(Debug)]
pub enum LoadEvent {
    BufferOpened(BufferHandle),
    /// A diff other than the staged one was opened.
    DiffOpened(DiffHandle),
    /// The staged diff was opened, and with it the buffer of the file in the index.
    StagedDiffOpened { diff: DiffHandle, index_buffer: BufferHandle },
    ConflictSetOpened(ConflictSetHandle),
    BlobLoaded(String),
    /// The texts with normalized line endings, and the file's path in the file system. The old
    /// text is there where the step has one.
    SnapshotPrepared { old_text: Option<String>, new_text: String, full_path: PathBuf },
    SnapshotBuilt { buffer: BufferHandle, diff: DiffHandle },
}

pub enum LoadEventView {
    BufferOpened(BufferHandle),
    DiffOpened(DiffHandle),
    StagedDiffOpened { diff: DiffHandle, index_buffer: BufferHandle },
    ConflictSetOpened(ConflictSetHandle),
    BlobLoaded(Seq<char>),
    SnapshotPrepared { old_text: Option<Seq<char>>, new_text: Seq<char>, full_path: PathBuf },
    SnapshotBuilt { buffer: BufferHandle, diff: DiffHandle },
}

impl View for LoadEvent {
    type V = LoadEventView;

    open spec fn view(&self) -> LoadEventView {
        match *self {
            LoadEvent::BufferOpened(buffer) => LoadEventView::BufferOpened(buffer),
            LoadEvent::DiffOpened(diff) => LoadEventView::DiffOpened(diff),
            LoadEvent::StagedDiffOpened { diff, index_buffer } => {
                LoadEventView::StagedDiffOpened { diff, index_buffer }
            },
            LoadEvent::ConflictSetOpened(set) => LoadEventView::ConflictSetOpened(set),
            LoadEvent::BlobLoaded(text) => LoadEventView::BlobLoaded(text@),
            LoadEvent::SnapshotPrepared { old_text, new_text, full_path } => {
                LoadEventView::SnapshotPrepared {
                    old_text: text_view(old_text),
                    new_text: new_text@,
                    full_path,
                }
            },
            LoadEvent::SnapshotBuilt { buffer, diff } => {
                LoadEventView::SnapshotBuilt { buffer, diff }
            },
        }
    }
}

/// The diff that is opened for a file of the work tree. A comparison has loads of its own.
pub open spec fn diff_source(
    base: DiffBaseView,
    branch_diff: Option<TreeDiffStatus>,
    repo: RepositoryRef,
) -> DiffSource
    recommends
        !(base is Comparison),
{
    match base {
        DiffBaseView::Index => DiffSource::Unstaged,
        DiffBaseView::Staged => DiffSource::Staged,
        DiffBaseView::Merge { .. } if branch_diff is Some => DiffSource::Since {
            oid: branch_diff->0.old_contents(),
            repo,
        },
        _ => DiffSource::Uncommitted,
    }
}

/// The load of a file of the work tree. All but the staged changes show the file's conflicts.
pub open spec fn worktree_load(
    base: DiffBaseView,
    branch_diff: Option<TreeDiffStatus>,
    project_path: ProjectPathView,
    repo: RepositoryRef,
) -> BufferLoadView
    recommends
        !(base is Comparison),
{
    BufferLoadView::OpenBuffer {
        project_path,
        source: diff_source(base, branch_diff, repo),
        conflict_set: !(base is Staged),
    }
}

/// The text shown for a file whose contents are not text.
pub open spec fn binary_text() -> Seq<char> {
    "(binary file not shown)"@
}

/// The step after the old side of a snapshot is known: the new side, if it is a stored object.
pub open spec fn load_new_side(
    old_text: Option<Seq<char>>,
    snapshot: SnapshotView,
) -> BufferLoadView {
    match snapshot.new_oid {
        Some(oid) => BufferLoadView::LoadNewBlob { oid, old_text, snapshot },
        None => BufferLoadView::PrepareSnapshot { old_text, new_text: Seq::empty(), snapshot },
    }
}

/// The load of a file of a comparison. A file that the work tree still has is opened there, as
/// the new side of a comparison with the work tree. Any other is built from stored objects, and
/// of a binary file neither side is read.
pub open spec fn comparison_load(
    target: ComparisonTargetView,
    file: CommitFileView,
    project_path: ProjectPathView,
    repo: RepositoryRef,
) -> BufferLoadView {
    let snapshot = SnapshotView {
        repo,
        repo_path: file.path,
        project_path,
        label: target.label(),
        new_oid: file.new_oid,
        is_binary: file.is_binary,
    };
    if target is Worktree && !(file.status is Deleted) {
        BufferLoadView::OpenBuffer {
            project_path,
            source: DiffSource::Since { oid: file.old_oid, repo },
            conflict_set: false,
        }
    } else if file.is_binary {
        BufferLoadView::PrepareSnapshot { old_text: None, new_text: binary_text(), snapshot }
    } else {
        match file.old_oid {
            Some(oid) => BufferLoadView::LoadOldBlob { oid, snapshot },
            None => load_new_side(None, snapshot),
        }
    }
}

/// The file that a snapshot's buffer shows.
pub open spec fn snapshot_file(snapshot: SnapshotView, full_path: PathBuf) -> ComparisonFileView {
    ComparisonFileView {
        path: snapshot.project_path.path,
        full_path,
        worktree_id: snapshot.project_path.worktree_id,
        display_name: snapshot.label + " - "@ + display_component(snapshot.repo_path),
        was_deleted: snapshot.new_oid is None,
        is_binary: snapshot.is_binary,
    }
}

impl BufferLoadView {
    /// The step after the diff of an opened buffer is known.
    pub open spec fn after_diff(
        display_buffer: BufferHandle,
        main_buffer: BufferHandle,
        diff: DiffHandle,
        conflict_set: bool,
    ) -> BufferLoadView {
        if conflict_set {
            BufferLoadView::OpenConflictSet { display_buffer, main_buffer, diff }
        } else {
            BufferLoadView::Loaded(
                LoadedDiffBuffer { display_buffer, main_buffer, diff, conflict_set: None },
            )
        }
    }

    /// The step after an event. An event that does not belong to the step changes nothing.
    pub open spec fn next(self, event: LoadEventView) -> BufferLoadView {
        match (self, event) {
            (
                BufferLoadView::OpenBuffer { project_path, source, conflict_set },
                LoadEventView::BufferOpened(buffer),
            ) => BufferLoadView::OpenDiff { buffer, source, conflict_set },
            (
                BufferLoadView::OpenDiff { buffer, source, conflict_set },
                LoadEventView::DiffOpened(diff),
            ) => if source is Staged {
                self
            } else {
                BufferLoadView::after_diff(buffer, buffer, diff, conflict_set)
            },
            (
                BufferLoadView::OpenDiff { buffer, source, conflict_set },
                LoadEventView::StagedDiffOpened { diff, index_buffer },
            ) => if source is Staged {
                BufferLoadView::after_diff(index_buffer, buffer, diff, conflict_set)
            } else {
                self
            },
            (
                BufferLoadView::OpenConflictSet { display_buffer, main_buffer, diff },
                LoadEventView::ConflictSetOpened(set),
            ) => BufferLoadView::Loaded(
                LoadedDiffBuffer { display_buffer, main_buffer, diff, conflict_set: Some(set) },
            ),
            (
                BufferLoadView::LoadOldBlob { oid, snapshot },
                LoadEventView::BlobLoaded(text),
            ) => load_new_side(Some(text), snapshot),
            (
                BufferLoadView::LoadNewBlob { oid, old_text, snapshot },
                LoadEventView::BlobLoaded(text),
            ) => BufferLoadView::PrepareSnapshot { old_text, new_text: text, snapshot },
            (
                BufferLoadView::PrepareSnapshot { old_text: old_raw, new_text: _, snapshot },
                LoadEventView::SnapshotPrepared { old_text, new_text, full_path },
            ) => if old_text is Some == old_raw is Some {
                BufferLoadView::BuildSnapshot {
                    base_text: old_text,
                    text: new_text,
                    file: snapshot_file(snapshot, full_path),
                }
            } else {
                self
            },
            (
                BufferLoadView::BuildSnapshot { .. },
                LoadEventView::SnapshotBuilt { buffer, diff },
            ) => BufferLoadView::Loaded(
                LoadedDiffBuffer {
                    display_buffer: buffer,
                    main_buffer: buffer,
                    diff,
                    conflict_set: None,
                },
            ),
            _ => self,
        }
    }

    /// The step after a sequence of events.
    pub open spec fn run(self, events: Seq<LoadEventView>) -> BufferLoadView
        decreases events.len(),
    {
        if events.len() == 0 {
            self
        } else {
            self.run(events.drop_last()).next(events.last())
        }
    }
}

/// Starts the load of a file of the work tree.
pub fn load_buffer(
    diff_base: &DiffBase,
    branch_diff: Option<TreeDiffStatus>,
    project_path: ProjectPath,
    repo: RepositoryRef,
) -> (r: BufferLoad)
    requires
        !(diff_base@ is Comparison),
    ensures
        r@ == worktree_load(diff_base@, branch_diff, project_path@, repo),
{
    let conflict_set = !matches!(diff_base, DiffBase::Staged);
    let source = match diff_base {
        DiffBase::Head => DiffSource::Uncommitted,
        DiffBase::Index => DiffSource::Unstaged,
        DiffBase::Staged => DiffSource::Staged,
        DiffBase::Merge { .. } => match branch_diff {
            Some(entry) => DiffSource::Since { oid: entry.old_oid(), repo },
            None => DiffSource::Uncommitted,
        },
        DiffBase::Comparison { .. } => vstd::pervasive::unreached(),
    };
    BufferLoad::OpenBuffer { project_path, source, conflict_set }
}

/// Starts the load of a file of a comparison.
pub fn load_comparison_buffer(
    target: &ComparisonTarget,
    file: &CommitFile,
    project_path: ProjectPath,
    repo: RepositoryRef,
) -> (r: BufferLoad)
    ensures
        r@ == comparison_load(target@, file@, project_path@, repo),
{
    if matches!(target, ComparisonTarget::Worktree) && file.status != CommitFileStatus::Deleted {
        return BufferLoad::OpenBuffer {
            project_path,
            source: DiffSource::Since { oid: file.old_oid, repo },
            conflict_set: false,
        };
    }
    let snapshot = Snapshot {
        repo,
        repo_path: file.path.clone(),
        project_path,
        label: target.label(),
        new_oid: file.new_oid,
        is_binary: file.is_binary,
    };
    if file.is_binary {
        return BufferLoad::PrepareSnapshot {
            old_text: None,
            new_text: "(binary file not shown)".to_owned(),
            snapshot,
        };
    }
    match file.old_oid {
        Some(oid) => BufferLoad::LoadOldBlob { oid, snapshot },
        None => start_new_side(None, snapshot),
    }
}

fn start_new_side(old_text: Option<String>, snapshot: Snapshot) -> (r: BufferLoad)
    ensures
        r@ == load_new_side(text_view(old_text), snapshot@),
{
    match snapshot.new_oid {
        Some(oid) => BufferLoad::LoadNewBlob { oid, old_text, snapshot },
        None => BufferLoad::PrepareSnapshot { old_text, new_text: String::new(), snapshot },
    }
}

fn make_file(snapshot: Snapshot, full_path: PathBuf) -> (r: ComparisonFile)
    ensures
        r@ == snapshot_file(snapshot@, full_path),
{
    let Snapshot { repo: _, repo_path, project_path, label, new_oid, is_binary } = snapshot;
    let mut display_name = label;
    display_name.append(" - ");
    match repo_path.file_name() {
        Some(name) => display_name.append(name),
        None => display_name.append(repo_path.as_unix_str()),
    }
    ComparisonFile {
        path: project_path.path,
        full_path,
        worktree_id: project_path.worktree_id,
        display_name,
        was_deleted: new_oid.is_none(),
        is_binary,
    }
}

impl BufferLoad {
    /// Goes on with what came of the step. An event that does not belong to the step changes
    /// nothing.
    pub fn advance(self, event: LoadEvent) -> (r: Self)
        ensures
            r@ == self@.next(event@),
    {
        match (self, event) {
            (
                BufferLoad::OpenBuffer { project_path: _, source, conflict_set },
                LoadEvent::BufferOpened(buffer),
            ) => BufferLoad::OpenDiff { buffer, source, conflict_set },
            (
                BufferLoad::OpenDiff { buffer, source, conflict_set },
                LoadEvent::DiffOpened(diff),
            ) => if matches!(source, DiffSource::Staged) {
                BufferLoad::OpenDiff { buffer, source, conflict_set }
            } else {
                BufferLoad::with_diff(buffer, buffer, diff, conflict_set)
            },
            (
                BufferLoad::OpenDiff { buffer, source, conflict_set },
                LoadEvent::StagedDiffOpened { diff, index_buffer },
            ) => if matches!(source, DiffSource::Staged) {
                BufferLoad::with_diff(index_buffer, buffer, diff, conflict_set)
            } else {
                BufferLoad::OpenDiff { buffer, source, conflict_set }
            },
            (
                BufferLoad::OpenConflictSet { display_buffer, main_buffer, diff },
                LoadEvent::ConflictSetOpened(set),
            ) => BufferLoad::Loaded(
                LoadedDiffBuffer { display_buffer, main_buffer, diff, conflict_set: Some(set) },
            ),
            (
                BufferLoad::LoadOldBlob { oid: _, snapshot },
                LoadEvent::BlobLoaded(text),
            ) => start_new_side(Some(text), snapshot),
            (
                BufferLoad::LoadNewBlob { oid: _, old_text, snapshot },
                LoadEvent::BlobLoaded(text),
            ) => BufferLoad::PrepareSnapshot { old_text, new_text: text, snapshot },
            (
                BufferLoad::PrepareSnapshot { old_text: old_raw, new_text: new_raw, snapshot },
                LoadEvent::SnapshotPrepared { old_text, new_text, full_path },
            ) => if old_text.is_some() == old_raw.is_some() {
                BufferLoad::BuildSnapshot {
                    base_text: old_text,
                    text: new_text,
                    file: Arc::new(make_file(snapshot, full_path)),
                }
            } else {
                BufferLoad::PrepareSnapshot { old_text: old_raw, new_text: new_raw, snapshot }
            },
            (
                BufferLoad::BuildSnapshot { .. },
                LoadEvent::SnapshotBuilt { buffer, diff },
            ) => BufferLoad::Loaded(
                LoadedDiffBuffer {
                    display_buffer: buffer,
                    main_buffer: buffer,
                    diff,
                    conflict_set: None,
                },
            ),
            (load, _) => load,
        }
    }

    fn with_diff(
        display_buffer: BufferHandle,
        main_buffer: BufferHandle,
        diff: DiffHandle,
        conflict_set: bool,
    ) -> (r: Self)
        ensures
            r@ == BufferLoadView::after_diff(display_buffer, main_buffer, diff, conflict_set),
    {
        if conflict_set {
            BufferLoad::OpenConflictSet { display_buffer, main_buffer, diff }
        } else {
            BufferLoad::Loaded(
                LoadedDiffBuffer { display_buffer, main_buffer, diff, conflict_set: None },
            )
        }
    }
}

} // verus!
