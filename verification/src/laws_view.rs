//! What the mathematical view of each value keeps of it: every field, under its own name.

use crate::base::request_view;
use crate::base::ComparisonTarget;
use crate::base::ComparisonTargetView;
use crate::base::DiffBase;
use crate::base::DiffBaseView;
use crate::base::DiffTreeType;
use crate::base::DiffTreeTypeView;
use crate::base::GitComparisonTarget;
use crate::base::GitComparisonTargetView;
use crate::base::ReloadRequest;
use crate::base::ReloadRequestView;
use crate::comparison_file::ComparisonFile;
use crate::diff::path_texts;
use crate::diff::CommitDiff;
use crate::diff::CommitFile;
use crate::event::buffer_views;
use crate::event::entry_views;
use crate::event::Branch;
use crate::event::DiffBuffer;
use crate::event::ReloadedDiff;
use crate::event::ReloadedDiffView;
use crate::event::RepositoryState;
use crate::load::text_view;
use crate::load::BufferLoad;
use crate::load::BufferLoadView;
use crate::load::LoadEvent;
use crate::load::LoadEventView;
use crate::load::Snapshot;
use crate::operation::GitOperationKind;
use crate::path::ProjectPath;
use crate::path::RepoPath;
use crate::status::StatusEntry;
use vstd::prelude::*;
use vstd::std_specs::cmp::PartialEqSpec;

verus! {

/// The name of an operation is that of the git command.
pub proof fn law_operation_names(kind: GitOperationKind)
    ensures
        kind == GitOperationKind::Merge ==> kind.name() == "merge"@,
        kind == GitOperationKind::Rebase ==> kind.name() == "rebase"@,
        kind == GitOperationKind::CherryPick ==> kind.name() == "cherry-pick"@,
        kind == GitOperationKind::Revert ==> kind.name() == "revert"@,
{
}

/// A text that may be missing is there in its view where it is there.
pub proof fn law_text_view(text: Option<String>)
    ensures
        text is Some <==> text_view(text) is Some,
        text is Some ==> text_view(text)->0 == text->0@,
{
}

/// The views of sequences keep every item in its place.
pub proof fn law_sequence_views(
    paths: Seq<RepoPath>,
    buffers: Seq<DiffBuffer>,
    entries: Seq<StatusEntry>,
    diff: CommitDiff,
    i: int,
)
    ensures
        path_texts(paths).len() == paths.len(),
        0 <= i < paths.len() ==> path_texts(paths)[i] == paths[i].text@,
        buffer_views(buffers).len() == buffers.len(),
        0 <= i < buffers.len() ==> buffer_views(buffers)[i] == buffers[i]@,
        entry_views(entries).len() == entries.len(),
        0 <= i < entries.len() ==> entry_views(entries)[i] == entries[i]@,
        diff@.len() == diff.files@.len(),
        0 <= i < diff.files@.len() ==> diff@[i] == diff.files@[i]@,
{
}

/// The views of paths, statuses and files keep every field.
pub proof fn law_file_views(
    path: ProjectPath,
    entry: StatusEntry,
    file: CommitFile,
    shown: ComparisonFile,
    snapshot: Snapshot,
    buffer: DiffBuffer,
)
    ensures
        path@.worktree_id == path.worktree_id,
        path@.path == path.path@,
        entry@.repo_path == entry.repo_path.text@,
        entry@.status == entry.status,
        file@.path == file.path.text@,
        file@.status == file.status,
        file@.old_oid == file.old_oid,
        file@.new_oid == file.new_oid,
        file@.is_binary == file.is_binary,
        shown@.path == shown.path@,
        shown@.full_path == shown.full_path,
        shown@.worktree_id == shown.worktree_id,
        shown@.display_name == shown.display_name@,
        shown@.was_deleted == shown.was_deleted,
        shown@.is_binary == shown.is_binary,
        snapshot@.repo == snapshot.repo,
        snapshot@.repo_path == snapshot.repo_path.text@,
        snapshot@.project_path == snapshot.project_path@,
        snapshot@.label == snapshot.label@,
        snapshot@.new_oid == snapshot.new_oid,
        snapshot@.is_binary == snapshot.is_binary,
        buffer@.repo_path == buffer.repo_path.text@,
        buffer@.file_status == buffer.file_status,
        buffer@.load == buffer.load@,
{
}

/// The views of what is read of a repository keep every field.
pub proof fn law_repository_views(branch: Branch, state: RepositoryState, diff: ReloadedDiff)
    ensures
        branch@.ref_name == branch.ref_name@,
        branch@.most_recent_commit is Some <==> branch.most_recent_commit is Some,
        branch.most_recent_commit is Some ==> branch@.most_recent_commit->0
            == branch.most_recent_commit->0@,
        state@.branch is Some <==> state.branch is Some,
        state.branch is Some ==> state@.branch->0 == state.branch->0@,
        state@.head_commit is Some <==> state.head_commit is Some,
        state.head_commit is Some ==> state@.head_commit->0 == state.head_commit->0@,
        diff matches ReloadedDiff::Tree(tree) ==> diff@ == ReloadedDiffView::Tree(tree@),
        diff matches ReloadedDiff::Comparison(files) ==> diff@ == ReloadedDiffView::Comparison(
            files@,
        ),
{
}

/// The views of bases and of their targets keep which one it is and the names in it.
pub proof fn law_base_views(base: DiffBase, target: ComparisonTarget)
    ensures
        base is Head <==> base@ is Head,
        base is Index <==> base@ is Index,
        base is Staged <==> base@ is Staged,
        base is Merge <==> base@ is Merge,
        base is Comparison <==> base@ is Comparison,
        base matches DiffBase::Merge { base_ref } ==> base@ == (DiffBaseView::Merge {
            base_ref: base_ref@,
        }),
        base matches DiffBase::Comparison { base: old, target: new } ==> base@
            == (DiffBaseView::Comparison { base: old@, target: new@ }),
        target is Index <==> target@ is Index,
        target is Worktree <==> target@ is Worktree,
        target is Revision <==> target@ is Revision,
        target matches ComparisonTarget::Revision(name) ==> target@
            == ComparisonTargetView::Revision(name@),
{
}

/// Bases are equal where they are of the same kind and name the same, and so are targets and
/// paths.
pub proof fn law_equality(
    left: DiffBase,
    right: DiffBase,
    left_target: ComparisonTarget,
    right_target: ComparisonTarget,
    left_path: RepoPath,
    right_path: RepoPath,
)
    ensures
        left.eq_spec(&right) <==> match (left, right) {
            (DiffBase::Head, DiffBase::Head) => true,
            (DiffBase::Index, DiffBase::Index) => true,
            (DiffBase::Staged, DiffBase::Staged) => true,
            (DiffBase::Merge { base_ref: l }, DiffBase::Merge { base_ref: r }) => l@ == r@,
            (
                DiffBase::Comparison { base: l, target: l_target },
                DiffBase::Comparison { base: r, target: r_target },
            ) => l@ == r@ && l_target@ == r_target@,
            _ => false,
        },
        left_target.eq_spec(&right_target) <==> match (left_target, right_target) {
            (ComparisonTarget::Revision(l), ComparisonTarget::Revision(r)) => l@ == r@,
            (ComparisonTarget::Index, ComparisonTarget::Index) => true,
            (ComparisonTarget::Worktree, ComparisonTarget::Worktree) => true,
            _ => false,
        },
        left_path.eq_spec(&right_path) <==> left_path.text@ == right_path.text@,
{
}

/// The views of requests keep which diff is asked for, of which repository, and its two sides.
pub proof fn law_request_views(
    request: ReloadRequest,
    trees: DiffTreeType,
    target: GitComparisonTarget,
)
    ensures
        request_view(None) is None,
        request_view(Some(request)) == Some(request@),
        request matches ReloadRequest::Tree { repo, trees } ==> request@
            == (ReloadRequestView::Tree { repo, trees: trees@ }),
        request matches ReloadRequest::Comparison { repo, base, target } ==> request@
            == (ReloadRequestView::Comparison { repo, base: base@, target: target@ }),
        trees matches DiffTreeType::MergeBase { base, head } ==> trees@
            == (DiffTreeTypeView::MergeBase { base: base@, head: head@ }),
        target matches GitComparisonTarget::Revision(name) ==> target@
            == GitComparisonTargetView::Revision(name@),
        target is Index ==> target@ is Index,
        target is Worktree ==> target@ is Worktree,
{
}

/// The view of a load keeps its step and what the step needs.
pub proof fn law_load_views(load: BufferLoad)
    ensures
        match load {
            BufferLoad::OpenBuffer { project_path, source, conflict_set } => load@
                == (BufferLoadView::OpenBuffer {
                project_path: project_path@,
                source,
                conflict_set,
            }),
            BufferLoad::OpenDiff { buffer, source, conflict_set } => load@
                == (BufferLoadView::OpenDiff { buffer, source, conflict_set }),
            BufferLoad::OpenConflictSet { display_buffer, main_buffer, diff } => load@
                == (BufferLoadView::OpenConflictSet { display_buffer, main_buffer, diff }),
            BufferLoad::LoadOldBlob { oid, snapshot } => load@ == (BufferLoadView::LoadOldBlob {
                oid,
                snapshot: snapshot@,
            }),
            BufferLoad::LoadNewBlob { oid, old_text, snapshot } => {
                &&& load@ is LoadNewBlob
                &&& load@->LoadNewBlob_oid == oid
                &&& load@->LoadNewBlob_snapshot == snapshot@
                &&& load@->LoadNewBlob_old_text is Some <==> old_text is Some
                &&& old_text is Some ==> load@->LoadNewBlob_old_text->0 == old_text->0@
            },
            BufferLoad::PrepareSnapshot { old_text, new_text, snapshot } => {
                &&& load@ is PrepareSnapshot
                &&& load@->new_text == new_text@
                &&& load@->PrepareSnapshot_snapshot == snapshot@
                &&& load@->PrepareSnapshot_old_text is Some <==> old_text is Some
                &&& old_text is Some ==> load@->PrepareSnapshot_old_text->0 == old_text->0@
            },
            BufferLoad::BuildSnapshot { base_text, text, file } => {
                &&& load@ is BuildSnapshot
                &&& load@->text == text@
                &&& load@->file == file@
                &&& load@->base_text is Some <==> base_text is Some
                &&& base_text is Some ==> load@->base_text->0 == base_text->0@
            },
            BufferLoad::Loaded(loaded) => load@ == BufferLoadView::Loaded(loaded),
        },
{
}

/// The view of an event keeps what came of the step.
pub proof fn law_load_event_views(event: LoadEvent)
    ensures
        match event {
            LoadEvent::BufferOpened(buffer) => event@ == LoadEventView::BufferOpened(buffer),
            LoadEvent::DiffOpened(diff) => event@ == LoadEventView::DiffOpened(diff),
            LoadEvent::StagedDiffOpened { diff, index_buffer } => event@
                == (LoadEventView::StagedDiffOpened { diff, index_buffer }),
            LoadEvent::ConflictSetOpened(set) => event@ == LoadEventView::ConflictSetOpened(set),
            LoadEvent::BlobLoaded(text) => event@ == LoadEventView::BlobLoaded(text@),
            LoadEvent::SnapshotPrepared { old_text, new_text, full_path } => {
                &&& event@ is SnapshotPrepared
                &&& event@->new_text == new_text@
                &&& event@->full_path == full_path
                &&& event@->old_text is Some <==> old_text is Some
                &&& old_text is Some ==> event@->old_text->0 == old_text->0@
            },
            LoadEvent::SnapshotBuilt { buffer, diff } => event@ == (LoadEventView::SnapshotBuilt {
                buffer,
                diff,
            }),
        },
{
}

} // verus!
