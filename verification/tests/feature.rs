//! The research feature's lifecycle.

use jueming::feature::{
    apply_preferences, begin_enable, check_ready, disable, enter_stage, finish_enable,
    next_generation, restore, worker_failed, FeatureState, FeatureStatus, PrepareStage,
    WorkerState,
};

fn off() -> FeatureState {
    FeatureState {
        desired_enabled: false,
        status: FeatureStatus::Disabled,
        stage: None,
        reason: None,
        activation_id: None,
        resources_ready: false,
        worker_state: WorkerState::Stopped,
        generation: "0".into(),
        default_similarity: "fuzzy.edit_distance".into(),
        auto_locate: false,
    }
}

#[test]
fn generations_count_published_changes() {
    assert_eq!(next_generation("0"), "1");
    assert_eq!(next_generation("41"), "42");
    assert_eq!(next_generation("garbage"), "1");
}

#[test]
fn an_outcome_applies_only_to_its_own_activation() {
    let mut state = off();
    assert!(begin_enable(&mut state, "a1".into()));
    assert_eq!(state.status, FeatureStatus::Preparing);
    assert_eq!(state.stage, Some(PrepareStage::CheckingResources));
    assert!(!begin_enable(&mut state, "a2".into()));
    assert_eq!(state.activation_id.as_deref(), Some("a1"));
    finish_enable(&mut state, "stale", Ok(()));
    assert_eq!(state.status, FeatureStatus::Preparing);
    enter_stage(&mut state, PrepareStage::LoadingModel);
    assert_eq!(state.worker_state, WorkerState::Starting);
    finish_enable(&mut state, "a1", Ok(()));
    assert_eq!(state.status, FeatureStatus::Ready);
    assert!(state.resources_ready);
    assert_eq!(state.worker_state, WorkerState::Ready);
    assert!(check_ready(&state).is_ok());
}

#[test]
fn failures_are_retryable_and_disable_stops_everything() {
    let mut state = off();
    begin_enable(&mut state, "a".into());
    finish_enable(&mut state, "a", Err("disk full".into()));
    assert_eq!(state.status, FeatureStatus::Failed);
    let reason = state.reason.clone().unwrap();
    assert_eq!(reason.code, "preparation_failed");
    assert_eq!(reason.message, "disk full");
    assert!(reason.retryable);
    assert_eq!(check_ready(&state), Err("research feature is not ready".into()));
    assert!(begin_enable(&mut state, "b".into()));
    finish_enable(&mut state, "b", Ok(()));
    worker_failed(&mut state, "cancelled");
    assert_eq!(state.status, FeatureStatus::Ready);
    worker_failed(&mut state, "crashed");
    assert_eq!(state.status, FeatureStatus::Failed);
    assert_eq!(state.worker_state, WorkerState::Failed);
    disable(&mut state);
    assert_eq!(state.status, FeatureStatus::Disabled);
    assert!(!state.desired_enabled && state.activation_id.is_none() && state.reason.is_none());
}

#[test]
fn restored_state_starts_disabled_and_remembers_the_wish() {
    let mut state = off();
    state.desired_enabled = true;
    state.status = FeatureStatus::Ready;
    state.resources_ready = true;
    assert!(restore(&mut state));
    assert_eq!(state.status, FeatureStatus::Disabled);
    assert!(!state.resources_ready);
}

#[test]
fn preferences_accept_only_known_providers() {
    let mut state = off();
    assert!(apply_preferences(&mut state, Some("fuzzy.char_ngram"), Some(true)).is_ok());
    assert_eq!(state.default_similarity, "fuzzy.char_ngram");
    assert!(state.auto_locate);
    assert_eq!(
        apply_preferences(&mut state, Some("xlmr"), Some(false)),
        Err("unknown similarity provider".into())
    );
    assert!(state.auto_locate);
}
