//! What each step of a buffer's load does, and what the bases and targets ask for.

use crate::base::ComparisonTargetView;
use crate::base::DiffBaseView;
use crate::base::RepositoryRef;
use crate::comparison_file::ComparisonFileView;
use crate::diff::CommitFileStatus;
use crate::diff::CommitFileView;
use crate::diff::Oid;
use crate::diff::TreeDiffStatus;
use crate::laws::law_last_component;
use crate::load::binary_text;
use crate::load::comparison_load;
use crate::load::snapshot_file;
use crate::load::worktree_load;
use crate::load::BufferHandle;
use crate::load::BufferLoadView;
use crate::load::ConflictSetHandle;
use crate::load::DiffHandle;
use crate::load::DiffSource;
use crate::load::LoadEventView;
use crate::load::LoadedDiffBuffer;
use crate::load::SnapshotView;
use crate::path::display_component;
use crate::path::ProjectPathView;
use std::path::PathBuf;
use vstd::prelude::*;

verus! {

/// The load of a file of the work tree opens the file where the project holds it, and then the
/// diff of the base: since HEAD, since the index, of the index since HEAD, or since the contents
/// in the merge base. All but the staged changes then open the conflicts.
pub proof fn law_worktree_load_opens_the_diff_of_its_base(
    base_ref: Seq<char>,
    branch_diff: Option<TreeDiffStatus>,
    old: Oid,
    path: ProjectPathView,
    repo: RepositoryRef,
)
    ensures
        worktree_load(DiffBaseView::Head, branch_diff, path, repo) == (BufferLoadView::OpenBuffer {
            project_path: path,
            source: DiffSource::Uncommitted,
            conflict_set: true,
        }),
        worktree_load(DiffBaseView::Index, branch_diff, path, repo)
            == (BufferLoadView::OpenBuffer {
            project_path: path,
            source: DiffSource::Unstaged,
            conflict_set: true,
        }),
        worktree_load(DiffBaseView::Staged, branch_diff, path, repo)
            == (BufferLoadView::OpenBuffer {
            project_path: path,
            source: DiffSource::Staged,
            conflict_set: false,
        }),
        worktree_load(DiffBaseView::Merge { base_ref }, None, path, repo)
            == (BufferLoadView::OpenBuffer {
            project_path: path,
            source: DiffSource::Uncommitted,
            conflict_set: true,
        }),
        worktree_load(
            DiffBaseView::Merge { base_ref },
            Some(TreeDiffStatus::Added),
            path,
            repo,
        ) == (BufferLoadView::OpenBuffer {
            project_path: path,
            source: DiffSource::Since { oid: None, repo },
            conflict_set: true,
        }),
        worktree_load(
            DiffBaseView::Merge { base_ref },
            Some(TreeDiffStatus::Modified { old }),
            path,
            repo,
        ) == (BufferLoadView::OpenBuffer {
            project_path: path,
            source: DiffSource::Since { oid: Some(old), repo },
            conflict_set: true,
        }),
        worktree_load(
            DiffBaseView::Merge { base_ref },
            Some(TreeDiffStatus::Deleted { old }),
            path,
            repo,
        ) == (BufferLoadView::OpenBuffer {
            project_path: path,
            source: DiffSource::Since { oid: Some(old), repo },
            conflict_set: true,
        }),
{
}

/// How the load of a file of the work tree starts on a base, where `tree` is how the file
/// differs from the merge base, if it does.
pub open spec fn is_worktree_start(
    load: BufferLoadView,
    base: DiffBaseView,
    tree: Option<TreeDiffStatus>,
    path: ProjectPathView,
    repo: RepositoryRef,
) -> bool {
    &&& load matches BufferLoadView::OpenBuffer { project_path, source, conflict_set }
    &&& project_path == path
    &&& conflict_set <==> base != DiffBaseView::Staged
    &&& match base {
        DiffBaseView::Head => source == DiffSource::Uncommitted,
        DiffBaseView::Index => source == DiffSource::Unstaged,
        DiffBaseView::Staged => source == DiffSource::Staged,
        DiffBaseView::Merge { base_ref: _ } => match tree {
            None => source == DiffSource::Uncommitted,
            Some(TreeDiffStatus::Added) => source == (DiffSource::Since { oid: None, repo }),
            Some(TreeDiffStatus::Modified { old }) => source == (DiffSource::Since {
                oid: Some(old),
                repo,
            }),
            Some(TreeDiffStatus::Deleted { old }) => source == (DiffSource::Since {
                oid: Some(old),
                repo,
            }),
        },
        DiffBaseView::Comparison { base: _, target: _ } => false,
    }
}

/// Opening the buffer keeps which diff is to be opened and whether the conflicts are.
pub proof fn law_opened_buffers_keep_their_diff(
    project_path: ProjectPathView,
    source: DiffSource,
    conflict_set: bool,
    buffer: BufferHandle,
)
    ensures
        (BufferLoadView::OpenBuffer { project_path, source, conflict_set }).next(
            LoadEventView::BufferOpened(buffer),
        ) == (BufferLoadView::OpenDiff { buffer, source, conflict_set }),
{
}

/// Opening the diff keeps the buffer. The staged diff displays the buffer of the index that
/// came with it, every other the file's own. The conflicts are opened next where they are
/// wanted, else the buffer is loaded without them.
pub proof fn law_opened_diffs_keep_their_buffer(
    buffer: BufferHandle,
    source: DiffSource,
    diff: DiffHandle,
    index_buffer: BufferHandle,
)
    ensures
        source != DiffSource::Staged ==> {
            &&& (BufferLoadView::OpenDiff { buffer, source, conflict_set: true }).next(
                LoadEventView::DiffOpened(diff),
            ) == (BufferLoadView::OpenConflictSet {
                display_buffer: buffer,
                main_buffer: buffer,
                diff,
            })
            &&& (BufferLoadView::OpenDiff { buffer, source, conflict_set: false }).next(
                LoadEventView::DiffOpened(diff),
            ) == BufferLoadView::Loaded(
                LoadedDiffBuffer {
                    display_buffer: buffer,
                    main_buffer: buffer,
                    diff,
                    conflict_set: None,
                },
            )
        },
        (BufferLoadView::OpenDiff {
            buffer,
            source: DiffSource::Staged,
            conflict_set: true,
        }).next(LoadEventView::StagedDiffOpened { diff, index_buffer })
            == (BufferLoadView::OpenConflictSet {
            display_buffer: index_buffer,
            main_buffer: buffer,
            diff,
        }),
        (BufferLoadView::OpenDiff {
            buffer,
            source: DiffSource::Staged,
            conflict_set: false,
        }).next(LoadEventView::StagedDiffOpened { diff, index_buffer }) == BufferLoadView::Loaded(
            LoadedDiffBuffer {
                display_buffer: index_buffer,
                main_buffer: buffer,
                diff,
                conflict_set: None,
            },
        ),
{
}

/// Opening the conflicts ends the load with them, and keeps the buffers and the diff.
pub proof fn law_opened_conflicts_end_the_load(
    display_buffer: BufferHandle,
    main_buffer: BufferHandle,
    diff: DiffHandle,
    set: ConflictSetHandle,
)
    ensures
        (BufferLoadView::OpenConflictSet { display_buffer, main_buffer, diff }).next(
            LoadEventView::ConflictSetOpened(set),
        ) == BufferLoadView::Loaded(
            LoadedDiffBuffer { display_buffer, main_buffer, diff, conflict_set: Some(set) },
        ),
{
}

/// From a file of the work tree to its diff: what is asked for after the file was opened is the
/// diff of the base, for the buffer that was opened.
pub proof fn law_diff_asked_for(
    base: DiffBaseView,
    branch_diff: Option<TreeDiffStatus>,
    path: ProjectPathView,
    repo: RepositoryRef,
    buffer: BufferHandle,
)
    requires
        !(base is Comparison),
    ensures
        ({
            let asked = worktree_load(base, branch_diff, path, repo).next(
                LoadEventView::BufferOpened(buffer),
            );
            &&& asked is OpenDiff
            &&& asked->buffer == buffer
            &&& asked->OpenDiff_conflict_set <==> base != DiffBaseView::Staged
            &&& asked->OpenDiff_source == DiffSource::Staged <==> base == DiffBaseView::Staged
            &&& asked->OpenDiff_source == DiffSource::Unstaged <==> base == DiffBaseView::Index
            &&& asked->OpenDiff_source == DiffSource::Uncommitted <==> {
                ||| base == DiffBaseView::Head
                ||| base is Merge && branch_diff is None
            }
            &&& asked->OpenDiff_source is Since <==> base is Merge && branch_diff is Some
            &&& asked->OpenDiff_source matches DiffSource::Since { oid, repo: at } ==> {
                &&& at == repo
                &&& oid is None <==> branch_diff == Some(TreeDiffStatus::Added)
                &&& branch_diff matches Some(TreeDiffStatus::Modified { old }) ==> oid == Some(old)
                &&& branch_diff matches Some(TreeDiffStatus::Deleted { old }) ==> oid == Some(old)
            }
        }),
{
}

/// The new side of a comparison goes by the revision, or by a fixed name.
pub proof fn law_labels(revision: Seq<char>)
    ensures
        ComparisonTargetView::Revision(revision).label() == revision,
        ComparisonTargetView::Index.label() == "index"@,
        ComparisonTargetView::Worktree.label() == "working tree"@,
        binary_text() == "(binary file not shown)"@,
{
}

/// What a path is called is a tail of it without separators, which starts the path or follows a
/// separator.
pub proof fn law_display_component(path: Seq<char>)
    ensures
        !display_component(path).contains('/'),
        display_component(path) == path || exists|dir: Seq<char>|
            path == #[trigger] (dir + seq!['/']) + display_component(path),
{
    law_last_component(path);
}

/// What a comparison knows of a file that it shows as a snapshot: the file itself, where the
/// project holds it, and the name of the new side.
pub open spec fn is_snapshot_of(
    snapshot: SnapshotView,
    target: ComparisonTargetView,
    file: CommitFileView,
    path: ProjectPathView,
    repo: RepositoryRef,
) -> bool {
    &&& snapshot.repo == repo
    &&& snapshot.repo_path == file.path
    &&& snapshot.project_path == path
    &&& snapshot.new_oid == file.new_oid
    &&& snapshot.is_binary == file.is_binary
    &&& target matches ComparisonTargetView::Revision(revision) ==> snapshot.label == revision
    &&& target is Index ==> snapshot.label == "index"@
    &&& target is Worktree ==> snapshot.label == "working tree"@
}

/// How the load of a file of a comparison starts. A file that is not deleted is opened in the
/// work tree where that is the new side. Any other is a snapshot: of a binary file nothing is
/// read, else the old side is read first, if there is one, then the new side, if it is stored.
pub open spec fn is_comparison_start(
    load: BufferLoadView,
    target: ComparisonTargetView,
    file: CommitFileView,
    path: ProjectPathView,
    repo: RepositoryRef,
) -> bool {
    if target == ComparisonTargetView::Worktree && file.status != CommitFileStatus::Deleted {
        load == (BufferLoadView::OpenBuffer {
            project_path: path,
            source: DiffSource::Since { oid: file.old_oid, repo },
            conflict_set: false,
        })
    } else {
        match load {
            BufferLoadView::LoadOldBlob { oid, snapshot } => {
                &&& is_snapshot_of(snapshot, target, file, path, repo)
                &&& !file.is_binary
                &&& file.old_oid == Some(oid)
            },
            BufferLoadView::LoadNewBlob { oid, old_text, snapshot } => {
                &&& is_snapshot_of(snapshot, target, file, path, repo)
                &&& !file.is_binary
                &&& file.old_oid is None
                &&& file.new_oid == Some(oid)
                &&& old_text is None
            },
            BufferLoadView::PrepareSnapshot { old_text, new_text, snapshot } => {
                &&& is_snapshot_of(snapshot, target, file, path, repo)
                &&& old_text is None
                &&& if file.is_binary {
                    new_text == "(binary file not shown)"@
                } else {
                    file.old_oid is None && file.new_oid is None && new_text.len() == 0
                }
            },
            _ => false,
        }
    }
}

/// A file of a comparison is loaded for the target of the comparison.
pub proof fn law_comparison_start(
    target: ComparisonTargetView,
    file: CommitFileView,
    path: ProjectPathView,
    repo: RepositoryRef,
)
    ensures
        is_comparison_start(comparison_load(target, file, path, repo), target, file, path, repo),
{
}

/// After the old side is read, the new side is, if it is a stored object, else it is empty. The
/// old text is kept as it was read, and so is what is known of the file.
pub proof fn law_old_side_is_kept(oid: Oid, text: Seq<char>, new: Oid, snapshot: SnapshotView)
    ensures
        snapshot.new_oid == Some(new) ==> (BufferLoadView::LoadOldBlob { oid, snapshot }).next(
            LoadEventView::BlobLoaded(text),
        ) == (BufferLoadView::LoadNewBlob { oid: new, old_text: Some(text), snapshot }),
        snapshot.new_oid is None ==> (BufferLoadView::LoadOldBlob { oid, snapshot }).next(
            LoadEventView::BlobLoaded(text),
        ) == (BufferLoadView::PrepareSnapshot {
            old_text: Some(text),
            new_text: Seq::<char>::empty(),
            snapshot,
        }),
{
}

/// After the new side is read, both texts are prepared as they were read.
pub proof fn law_new_side_is_kept(
    oid: Oid,
    old_text: Option<Seq<char>>,
    text: Seq<char>,
    snapshot: SnapshotView,
)
    ensures
        (BufferLoadView::LoadNewBlob { oid, old_text, snapshot }).next(
            LoadEventView::BlobLoaded(text),
        ) == (BufferLoadView::PrepareSnapshot { old_text, new_text: text, snapshot }),
{
}

/// The snapshot is built from the texts as they were prepared, for the file at the place where
/// the project holds it, under the name of the new side and of the file. It is deleted where the
/// new side is no stored object.
pub proof fn law_prepared_texts_are_built(
    old_raw: Option<Seq<char>>,
    new_raw: Seq<char>,
    snapshot: SnapshotView,
    old_text: Option<Seq<char>>,
    new_text: Seq<char>,
    full_path: PathBuf,
)
    requires
        old_raw is Some <==> old_text is Some,
    ensures
        ({
            let built = (BufferLoadView::PrepareSnapshot {
                old_text: old_raw,
                new_text: new_raw,
                snapshot,
            }).next(LoadEventView::SnapshotPrepared { old_text, new_text, full_path });
            &&& built == (BufferLoadView::BuildSnapshot {
                base_text: old_text,
                text: new_text,
                file: snapshot_file(snapshot, full_path),
            })
            &&& built->file == (ComparisonFileView {
                path: snapshot.project_path.path,
                full_path,
                worktree_id: snapshot.project_path.worktree_id,
                display_name: snapshot.label + " - "@ + display_component(snapshot.repo_path),
                was_deleted: snapshot.new_oid is None,
                is_binary: snapshot.is_binary,
            })
        }),
{
}

/// A built snapshot ends the load: its buffer is displayed and edited, without conflicts.
pub proof fn law_built_snapshots_end_the_load(
    base_text: Option<Seq<char>>,
    text: Seq<char>,
    file: ComparisonFileView,
    buffer: BufferHandle,
    diff: DiffHandle,
)
    ensures
        (BufferLoadView::BuildSnapshot { base_text, text, file }).next(
            LoadEventView::SnapshotBuilt { buffer, diff },
        ) == BufferLoadView::Loaded(
            LoadedDiffBuffer {
                display_buffer: buffer,
                main_buffer: buffer,
                diff,
                conflict_set: None,
            },
        ),
{
}

/// A loaded buffer stays as it is, whatever event comes.
pub proof fn law_loaded_buffers_stay(loaded: LoadedDiffBuffer, event: LoadEventView)
    ensures
        BufferLoadView::Loaded(loaded).next(event) == BufferLoadView::Loaded(loaded),
{
}

/// A run of events is its events one after the other.
pub proof fn law_runs(load: BufferLoadView, events: Seq<LoadEventView>, event: LoadEventView)
    ensures
        load.run(Seq::<LoadEventView>::empty()) == load,
        load.run(events.push(event)) == load.run(events).next(event),
{
    assert(events.push(event).drop_last() =~= events);
}

} // verus!
