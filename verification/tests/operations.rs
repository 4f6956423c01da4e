use git_diff_buffers::operation::{
    GitOperation, GitOperationAction, GitOperationError, GitOperationErrorCode, GitOperationInput,
    GitOperationKind, GitOperationOutcome, GitOperationPreflight, GitOperationProgress,
    GitOperationResult, GitOperationState,
};
use git_diff_buffers::path::RepoPath;

fn stopped_rebase() -> GitOperationState {
    GitOperationState {
        kind: GitOperationKind::Rebase,
        progress: Some(GitOperationProgress { current: 2, total: 5 }),
        conflicts: vec![RepoPath { text: "src/lib.rs".to_string() }],
        required_input: Some(GitOperationInput::ResolveConflicts),
        available_actions: vec![
            GitOperationAction::Continue,
            GitOperationAction::Skip,
            GitOperationAction::Abort,
        ],
        original_head: Some("abc".to_string()),
        target: None,
    }
}

#[test]
fn operations_have_their_kind() {
    let merge = GitOperation::Merge { commit: "topic".to_string(), no_commit: true };
    let rebase = GitOperation::Rebase { upstream: "main".to_string() };
    let pick = GitOperation::CherryPick { commits: vec!["a".to_string(), "b".to_string()] };
    let revert = GitOperation::Revert { commits: vec![], no_commit: false };
    assert_eq!(merge.kind(), GitOperationKind::Merge);
    assert_eq!(rebase.kind(), GitOperationKind::Rebase);
    assert_eq!(pick.kind(), GitOperationKind::CherryPick);
    assert_eq!(revert.kind(), GitOperationKind::Revert);
}

#[test]
fn kinds_are_named_as_on_the_command_line() {
    assert_eq!(GitOperationKind::Merge.to_string(), "merge");
    assert_eq!(GitOperationKind::Rebase.to_string(), "rebase");
    assert_eq!(GitOperationKind::CherryPick.to_string(), "cherry-pick");
    assert_eq!(GitOperationKind::Revert.to_string(), "revert");
}

#[test]
fn errors_show_their_message() {
    let error = GitOperationError {
        code: GitOperationErrorCode::Conflicts,
        message: "stopped at a conflict".to_string(),
        stderr: "CONFLICT (content)".to_string(),
        state: Some(Box::new(stopped_rebase())),
    };
    assert_eq!(error.to_string(), "stopped at a conflict");
    assert_eq!(error.clone(), error);
}

#[test]
fn outcomes_compare_by_their_state() {
    let done: GitOperationResult = Ok(GitOperationOutcome::Completed);
    let stopped: GitOperationResult = Ok(GitOperationOutcome::InProgress(stopped_rebase()));
    assert_ne!(done, stopped);
    assert_eq!(stopped, Ok(GitOperationOutcome::InProgress(stopped_rebase())));
    let before = GitOperationPreflight {
        dirty_worktree: false,
        staged_changes: true,
        detached_head: false,
        operation: Some(stopped_rebase()),
    };
    assert_eq!(before.clone(), before);
}
