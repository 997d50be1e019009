use yeti::config::Args;
use yeti::prompt::build_user_prompt;
use yeti::prompt::FileInfo;
use yeti::prompt::FileStatus;
use yeti::repo::build_staged_summary;
use yeti::repo::StagedSummary;
use yeti::error::YetiError;
use yeti::state::AppEvent;
use yeti::state::AppState;
use yeti::state::Effect;
use yeti::state::InputKey;
use yeti::state::Pipeline;

fn args() -> Args {
    Args { help: false, dry_run: false, reset_key: false, reset_cache: false }
}

fn one_file() -> FileInfo {
    FileInfo {
        path: "src/lib.rs".to_string(),
        additions: 2,
        deletions: 1,
        diff: "+a\n-b\n".to_string(),
        status: FileStatus::Modified,
        old_path: None,
    }
}

fn summary() -> StagedSummary {
    StagedSummary { branch: "main".to_string(), files: vec![one_file()] }
}

#[test]
fn new_with_key_starts_staging_and_requests_it() {
    let p = Pipeline::new(args(), Some("key".to_string()), "model-a".to_string());
    assert!(matches!(p.state, AppState::Staging { .. }));
    let effects = p.startup_effects();
    assert_eq!(effects.len(), 1);
    assert!(matches!(effects[0], Effect::StartStaging));
}

#[test]
fn new_without_key_asks_for_credential_first() {
    let p = Pipeline::new(args(), None, "model-a".to_string());
    assert!(matches!(p.state, AppState::ApiKeyInput { .. }));
    assert!(p.startup_effects().is_empty());

    let reset = Args { help: false, dry_run: false, reset_key: true, reset_cache: false };
    let p2 = Pipeline::new(reset, Some("key".to_string()), "model-a".to_string());
    assert!(matches!(p2.state, AppState::ApiKeyInput { .. }));
}

#[test]
fn empty_staged_file_list_is_no_changes_to_commit() {
    let r = build_staged_summary("main".to_string(), Vec::new());
    match r {
        Err(YetiError::NoChangesToCommit) => {}
        _ => panic!("expected NoChangesToCommit"),
    }
}

#[test]
fn staging_failure_fails_without_any_network_call_and_unstages() {
    // Zero staged files after staging: the worker reports the no-changes
    // failure; the pipeline must fail, roll back, and start no generation.
    let mut p = Pipeline::new(args(), Some("key".to_string()), "model-a".to_string());
    let msg = YetiError::NoChangesToCommit.message();
    let effects = p.handle_event(AppEvent::StagingFailed(msg), 10);
    match &p.state {
        AppState::Error { message, retryable } => {
            assert_eq!(message, "No changes to commit");
            assert!(!retryable);
        }
        other => panic!("expected Error state, got {other:?}"),
    }
    assert_eq!(effects.len(), 1);
    assert!(matches!(effects[0], Effect::Unstage));
    assert!(!effects.iter().any(|e| matches!(e, Effect::StartGeneration { .. })));
}

#[test]
fn staging_complete_starts_generation_with_the_built_prompt() {
    let mut p = Pipeline::new(args(), Some("key".to_string()), "model-a".to_string());
    let effects = p.handle_event(AppEvent::StagingComplete(summary()), 1000);
    match &p.state {
        AppState::Generating { branch, files, generated, started_at_ms } => {
            assert_eq!(branch, "main");
            assert_eq!(files.len(), 1);
            assert!(generated.is_empty());
            assert_eq!(*started_at_ms, 1000);
        }
        other => panic!("expected Generating, got {other:?}"),
    }
    assert_eq!(effects.len(), 1);
    match &effects[0] {
        Effect::StartGeneration { api_key, model, user_prompt } => {
            assert_eq!(api_key, "key");
            assert_eq!(model, "model-a");
            let expected = build_user_prompt("main", &vec![one_file()]);
            assert_eq!(user_prompt, &expected);
        }
        other => panic!("expected StartGeneration, got {other:?}"),
    }
}

#[test]
fn fragments_accumulate_in_emission_order() {
    let mut p = Pipeline::new(args(), Some("key".to_string()), "model-a".to_string());
    p.handle_event(AppEvent::StagingComplete(summary()), 0);
    p.handle_event(AppEvent::GenerationChunk("fix: ".to_string()), 5);
    p.handle_event(AppEvent::GenerationChunk("one".to_string()), 6);
    match &p.state {
        AppState::Generating { generated, .. } => assert_eq!(generated, "fix: one"),
        other => panic!("expected Generating, got {other:?}"),
    }
}

#[test]
fn generation_complete_commits_with_sanitized_message() {
    let mut p = Pipeline::new(args(), Some("key".to_string()), "model-a".to_string());
    p.handle_event(AppEvent::StagingComplete(summary()), 0);
    let raw = "fix[CORE]: adjust parser\n\nHandle empty hunks without panicking.".to_string();
    let effects = p.handle_event(AppEvent::GenerationComplete(raw), 50);
    match &p.state {
        AppState::Committing { message, .. } => {
            assert_eq!(
                message,
                "fix[CORE]: adjust parser\n\nHandle empty hunks without panicking."
            );
        }
        other => panic!("expected Committing, got {other:?}"),
    }
    assert_eq!(effects.len(), 1);
    match &effects[0] {
        Effect::StartCommit { title, body } => {
            assert_eq!(title, "fix[CORE]: adjust parser");
            assert_eq!(body.as_deref(), Some("Handle empty hunks without panicking."));
        }
        other => panic!("expected StartCommit, got {other:?}"),
    }
    let result = p.get_result().as_ref().expect("result kept");
    assert!(!result.dry_run);
    assert_eq!(result.branch, "main");
}

#[test]
fn dry_run_ends_without_commit_effect() {
    let dry = Args { help: false, dry_run: true, reset_key: false, reset_cache: false };
    let mut p = Pipeline::new(dry, Some("key".to_string()), "model-a".to_string());
    p.handle_event(AppEvent::StagingComplete(summary()), 0);
    let effects = p.handle_event(
        AppEvent::GenerationComplete("chore: tidy things up".to_string()),
        9,
    );
    assert!(effects.is_empty());
    assert!(matches!(p.state, AppState::Done { .. }));
    let result = p.get_result().as_ref().expect("result kept");
    assert!(result.dry_run);
}

#[test]
fn commit_complete_finishes_the_run() {
    let mut p = Pipeline::new(args(), Some("key".to_string()), "model-a".to_string());
    p.handle_event(AppEvent::StagingComplete(summary()), 0);
    p.handle_event(AppEvent::GenerationComplete("feat: add thing".to_string()), 1);
    let effects = p.handle_event(AppEvent::CommitComplete, 2000);
    assert!(effects.is_empty());
    match &p.state {
        AppState::Done { done_at_ms, .. } => assert_eq!(*done_at_ms, 2000),
        other => panic!("expected Done, got {other:?}"),
    }
    assert!(!p.done_grace_expired(4999));
    assert!(p.done_grace_expired(5000));
}

#[test]
fn idle_timeout_fails_retryably_and_unstages() {
    // Generation worker produces no fragments for the full idle-timeout
    // duration: the state must become a retryable failure and the staged
    // changes must be rolled back.
    let mut p = Pipeline::new(args(), Some("key".to_string()), "model-a".to_string());
    p.handle_event(AppEvent::StagingComplete(summary()), 0);
    let quiet = p.check_timeout(44_999);
    assert!(quiet.is_empty());
    assert!(matches!(p.state, AppState::Generating { .. }));

    let effects = p.check_timeout(45_000);
    assert_eq!(effects.len(), 1);
    assert!(matches!(effects[0], Effect::Unstage));
    match &p.state {
        AppState::Error { retryable, message } => {
            assert!(*retryable);
            assert!(message.contains("timed out"));
        }
        other => panic!("expected Error, got {other:?}"),
    }
    // The rollback succeeded: the failure stays as it is.
    p.apply_rollback_outcome(None);
    match &p.state {
        AppState::Error { retryable, .. } => assert!(*retryable),
        other => panic!("expected Error, got {other:?}"),
    }
}

#[test]
fn overall_timeout_trips_even_with_fragments() {
    let mut p = Pipeline::new(args(), Some("key".to_string()), "model-a".to_string());
    p.handle_event(AppEvent::StagingComplete(summary()), 0);
    p.handle_event(AppEvent::GenerationChunk("partial".to_string()), 10);
    assert!(p.check_timeout(60_000).is_empty());
    let effects = p.check_timeout(120_000);
    assert_eq!(effects.len(), 1);
    assert!(matches!(effects[0], Effect::Unstage));
}

#[test]
fn commit_failure_is_not_retryable_and_unstages() {
    // Commit fails after a successful generation: the state must be a
    // non-retryable failure and the index must reflect a successful unstage.
    let mut p = Pipeline::new(args(), Some("key".to_string()), "model-a".to_string());
    p.handle_event(AppEvent::StagingComplete(summary()), 0);
    p.handle_event(AppEvent::GenerationComplete("feat: add thing".to_string()), 1);
    let effects = p.handle_event(
        AppEvent::CommitFailed("Git commit failed: hook rejected".to_string()),
        2,
    );
    assert_eq!(effects.len(), 1);
    assert!(matches!(effects[0], Effect::Unstage));
    match &p.state {
        AppState::Error { retryable, message } => {
            assert!(!retryable);
            assert_eq!(message, "Git commit failed: hook rejected");
        }
        other => panic!("expected Error, got {other:?}"),
    }
    p.apply_rollback_outcome(None);
    match &p.state {
        AppState::Error { retryable, .. } => assert!(!retryable),
        other => panic!("expected Error, got {other:?}"),
    }
}

#[test]
fn failed_rollback_reports_both_errors_and_blocks_retry() {
    let mut p = Pipeline::new(args(), Some("key".to_string()), "model-a".to_string());
    p.handle_event(AppEvent::StagingComplete(summary()), 0);
    p.handle_event(AppEvent::GenerationFailed("stream cut".to_string()), 1);
    p.apply_rollback_outcome(Some("index locked".to_string()));
    match &p.state {
        AppState::Error { retryable, message } => {
            assert!(!retryable);
            assert_eq!(
                message,
                "stream cut\nAlso failed to unstage changes: index locked"
            );
        }
        other => panic!("expected Error, got {other:?}"),
    }
}

#[test]
fn late_events_are_ignored_after_the_stage_moved_on() {
    let mut p = Pipeline::new(args(), Some("key".to_string()), "model-a".to_string());
    p.handle_event(AppEvent::StagingComplete(summary()), 0);
    p.handle_event(AppEvent::GenerationFailed("stream cut".to_string()), 1);
    // The abandoned generation worker still reports afterwards.
    let effects = p.handle_event(AppEvent::GenerationChunk("late".to_string()), 2);
    assert!(effects.is_empty());
    let effects2 = p.handle_event(AppEvent::GenerationComplete("late done".to_string()), 3);
    assert!(effects2.is_empty());
    assert!(matches!(p.state, AppState::Error { .. }));
}

#[test]
fn key_entry_edits_input_and_submits_on_enter() {
    let mut p = Pipeline::new(args(), None, "model-a".to_string());
    for c in ['a', 'b', 'c'] {
        let (ev, effects) = p.handle_key(InputKey::Char(c));
        assert!(ev.is_none());
        assert!(effects.is_empty());
    }
    let (_, _) = p.handle_key(InputKey::Left);
    let (_, _) = p.handle_key(InputKey::Backspace);
    match &p.state {
        AppState::ApiKeyInput { input, cursor, .. } => {
            assert_eq!(input, "ac");
            assert_eq!(*cursor, 1);
        }
        other => panic!("expected ApiKeyInput, got {other:?}"),
    }
    let (ev, _) = p.handle_key(InputKey::Enter);
    match ev {
        Some(AppEvent::ApiKeyEntered(k)) => assert_eq!(k, "ac"),
        other => panic!("expected ApiKeyEntered, got {other:?}"),
    }
}

#[test]
fn entered_key_is_validated_then_persisted_then_staging_starts() {
    let mut p = Pipeline::new(args(), None, "model-a".to_string());
    let effects = p.handle_event(AppEvent::ApiKeyEntered("secret".to_string()), 0);
    assert!(matches!(p.state, AppState::ApiKeyValidating));
    assert_eq!(effects.len(), 1);
    match &effects[0] {
        Effect::ValidateKey { api_key } => assert_eq!(api_key, "secret"),
        other => panic!("expected ValidateKey, got {other:?}"),
    }

    let effects = p.handle_event(AppEvent::ApiKeyValidated, 1);
    assert!(matches!(p.state, AppState::Staging { .. }));
    assert_eq!(effects.len(), 2);
    assert!(matches!(&effects[0], Effect::PersistKey { api_key } if api_key == "secret"));
    assert!(matches!(effects[1], Effect::StartStaging));
}

#[test]
fn rejected_key_returns_to_input_with_the_error() {
    let mut p = Pipeline::new(args(), None, "model-a".to_string());
    p.handle_event(AppEvent::ApiKeyEntered("bad".to_string()), 0);
    let effects = p.handle_event(
        AppEvent::ApiKeyValidationFailed("Invalid API key: Invalid API key".to_string()),
        1,
    );
    assert!(effects.is_empty());
    match &p.state {
        AppState::ApiKeyInput { input, error, .. } => {
            assert!(input.is_empty());
            assert_eq!(error.as_deref(), Some("Invalid API key: Invalid API key"));
        }
        other => panic!("expected ApiKeyInput, got {other:?}"),
    }
}

#[test]
fn retry_from_failed_restages_and_key_reentry_reopens_prompt() {
    let mut p = Pipeline::new(args(), Some("key".to_string()), "model-a".to_string());
    p.handle_event(AppEvent::StagingComplete(summary()), 0);
    p.handle_event(AppEvent::GenerationFailed("stream cut".to_string()), 1);

    let (ev, effects) = p.handle_key(InputKey::Char('r'));
    assert!(ev.is_none());
    assert!(matches!(p.state, AppState::Staging { .. }));
    assert_eq!(effects.len(), 1);
    assert!(matches!(effects[0], Effect::StartStaging));

    p.handle_event(AppEvent::StagingFailed("broken".to_string()), 2);
    let (_, effects) = p.handle_key(InputKey::Char('r'));
    // A non-retryable failure offers no retry.
    assert!(effects.is_empty());
    assert!(matches!(p.state, AppState::Error { .. }));

    let (_, _) = p.handle_key(InputKey::Char('k'));
    assert!(matches!(p.state, AppState::ApiKeyInput { .. }));
}
