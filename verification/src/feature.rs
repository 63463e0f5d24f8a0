//! The lifecycle of the device-scoped research feature: enabling starts one
//! preparation under a fresh activation, whose outcome is taken in only
//! while that activation is current; disabling stops it; a failing worker
//! marks the feature failed. Every published change advances a generation
//! counter.
use vstd::prelude::*;
use crate::ids::{decimal, parse_u64, spec_parse_u64};
use crate::strings::str_eq;

verus! {

#[derive(Clone, Copy, Debug, PartialEq, Eq, Structural)]
pub enum FeatureStatus {
    Disabled,
    Preparing,
    Ready,
    Failed,
}

#[derive(Clone, Copy, Debug, PartialEq, Eq, Structural)]
pub enum WorkerState {
    Stopped,
    Starting,
    Ready,
    Failed,
}

#[derive(Clone, Copy, Debug, PartialEq, Eq, Structural)]
pub enum PrepareStage {
    CheckingResources,
    Downloading,
    LoadingModel,
}

/// Why the feature is not ready.
#[derive(Clone, Debug)]
pub struct FeatureReason {
    pub code: String,
    pub message: String,
    pub retryable: bool,
}

/// What the feature publishes about itself.
#[derive(Clone, Debug)]
pub struct FeatureState {
    pub desired_enabled: bool,
    pub status: FeatureStatus,
    pub stage: Option<PrepareStage>,
    pub reason: Option<FeatureReason>,
    pub activation_id: Option<String>,
    pub resources_ready: bool,
    pub worker_state: WorkerState,
    /// A decimal counter, advanced by every published change.
    pub generation: String,
    pub default_similarity: String,
    pub auto_locate: bool,
}

/// The counter a generation text stands for: its value, or zero when it is not a number.
pub open spec fn generation_value(g: Seq<char>) -> nat {
    match spec_parse_u64(g) {
        Some(v) => v as nat,
        None => 0,
    }
}

/// The generation after one more published change.
pub fn next_generation(g: &str) -> (r: String)
    requires
        generation_value(g@) < u64::MAX,
    ensures
        r@ == decimal(generation_value(g@) + 1),
{
    let v: u64 = match parse_u64(g) {
        Some(v) => v,
        None => 0,
    };
    crate::ids::decimal_text(v + 1)
}

/// A persisted state as the application starts with it: disabled, with no
/// resources ready and the worker stopped; the answer says whether the user
/// had left the feature enabled.
pub fn restore(state: &mut FeatureState) -> (r: bool)
    ensures
        r == old(state).desired_enabled,
        *final(state) == (FeatureState {
            status: FeatureStatus::Disabled,
            resources_ready: false,
            worker_state: WorkerState::Stopped,
            ..*old(state)
        }),
{
    state.status = FeatureStatus::Disabled;
    state.resources_ready = false;
    state.worker_state = WorkerState::Stopped;
    state.desired_enabled
}

/// Starts a preparation under `activation`, unless the feature is already
/// ready or preparing, when nothing changes and the answer is `false`.
pub fn begin_enable(state: &mut FeatureState, activation: String) -> (r: bool)
    ensures
        r == !(old(state).status == FeatureStatus::Ready || old(state).status == FeatureStatus::Preparing),
        !r ==> *final(state) == *old(state),
        r ==> *final(state) == (FeatureState {
            desired_enabled: true,
            status: FeatureStatus::Preparing,
            stage: Some(PrepareStage::CheckingResources),
            reason: None,
            activation_id: Some(activation),
            ..*old(state)
        }),
{
    if state.status == FeatureStatus::Ready || state.status == FeatureStatus::Preparing {
        return false;
    }
    state.desired_enabled = true;
    state.status = FeatureStatus::Preparing;
    state.stage = Some(PrepareStage::CheckingResources);
    state.reason = None;
    state.activation_id = Some(activation);
    true
}

/// Whether a preparation started under `activation` is still the current one.
pub open spec fn activation_current(state: FeatureState, activation: Seq<char>) -> bool {
    state.activation_id matches Some(a) && a@ == activation
}

/// `after` is `before` marked failed, with the given worker state and a
/// retryable reason; nothing else changes.
pub open spec fn failed_with(before: FeatureState, after: FeatureState, worker: WorkerState, code: Seq<char>, message: Seq<char>) -> bool {
    &&& after.status == FeatureStatus::Failed
    &&& after.worker_state == worker
    &&& after.reason matches Some(r) && r.code@ == code && r.message@ == message && r.retryable
    &&& after.stage == (if worker == WorkerState::Stopped { None } else { before.stage })
    &&& after.desired_enabled == before.desired_enabled
    &&& after.activation_id == before.activation_id
    &&& after.resources_ready == before.resources_ready
    &&& after.generation == before.generation
    &&& after.default_similarity == before.default_similarity
    &&& after.auto_locate == before.auto_locate
}

/// Takes in a preparation's outcome, but only while the activation it was
/// started under is still current: success makes the feature ready, failure
/// marks it failed with a retryable reason.
pub fn finish_enable(state: &mut FeatureState, activation: &str, outcome: Result<(), String>)
    ensures
        !activation_current(*old(state), activation@) ==> *final(state) == *old(state),
        activation_current(*old(state), activation@) ==> match outcome {
            Ok(()) => *final(state) == (FeatureState {
                status: FeatureStatus::Ready,
                stage: None,
                resources_ready: true,
                worker_state: WorkerState::Ready,
                ..*old(state)
            }),
            Err(e) => failed_with(*old(state), *final(state), WorkerState::Stopped, "preparation_failed"@, e@),
        },
{
    let current = match &state.activation_id {
        Some(a) => str_eq(a.as_str(), activation),
        None => false,
    };
    if !current {
        return;
    }
    match outcome {
        Ok(()) => {
            state.status = FeatureStatus::Ready;
            state.stage = None;
            state.resources_ready = true;
            state.worker_state = WorkerState::Ready;
        },
        Err(e) => {
            state.status = FeatureStatus::Failed;
            state.stage = None;
            state.worker_state = WorkerState::Stopped;
            state.reason = Some(FeatureReason { code: "preparation_failed".to_owned(), message: e, retryable: true });
        },
    }
}

/// Disables the feature: the preparation is abandoned and the worker stops.
pub fn disable(state: &mut FeatureState)
    ensures
        *final(state) == (FeatureState {
            desired_enabled: false,
            status: FeatureStatus::Disabled,
            stage: None,
            activation_id: None,
            worker_state: WorkerState::Stopped,
            reason: None,
            ..*old(state)
        }),
{
    state.desired_enabled = false;
    state.status = FeatureStatus::Disabled;
    state.stage = None;
    state.activation_id = None;
    state.worker_state = WorkerState::Stopped;
    state.reason = None;
}

/// Records a stage of the running preparation.
pub fn enter_stage(state: &mut FeatureState, stage: PrepareStage)
    ensures
        *final(state) == (FeatureState {
            stage: Some(stage),
            worker_state: if stage == PrepareStage::LoadingModel { WorkerState::Starting } else { old(state).worker_state },
            ..*old(state)
        }),
{
    state.stage = Some(stage);
    if stage == PrepareStage::LoadingModel {
        state.worker_state = WorkerState::Starting;
    }
}

/// A worker failed while executing (other than by cancellation): the feature
/// is marked failed with a retryable reason.
pub fn worker_failed(state: &mut FeatureState, error: &str)
    ensures
        error@ == "cancelled"@ ==> *final(state) == *old(state),
        error@ != "cancelled"@ ==> failed_with(*old(state), *final(state), WorkerState::Failed, "worker_failed"@, error@),
{
    if str_eq(error, "cancelled") {
        return;
    }
    state.status = FeatureStatus::Failed;
    state.worker_state = WorkerState::Failed;
    state.reason = Some(FeatureReason { code: "worker_failed".to_owned(), message: error.to_owned(), retryable: true });
    proof {
        reveal_strlit("worker_failed");
    }
}

/// The similarity providers a user may choose as the default.
pub open spec fn known_similarity(p: Seq<char>) -> bool {
    p == "fuzzy.edit_distance"@ || p == "fuzzy.char_ngram"@
}

/// Saves the user's feature preferences; an unknown similarity provider is
/// refused and changes nothing.
pub fn apply_preferences(state: &mut FeatureState, default_similarity: Option<&str>, auto_locate: Option<bool>) -> (r: Result<(), String>)
    ensures
        (default_similarity matches Some(p) && !known_similarity(p@)) ==> (r matches Err(m) && m@
            == "unknown similarity provider"@ && *final(state) == *old(state)),
        !(default_similarity matches Some(p) && !known_similarity(p@)) ==> {
            &&& r is Ok
            &&& final(state).default_similarity@ == match default_similarity {
                Some(p) => p@,
                None => old(state).default_similarity@,
            }
            &&& final(state).auto_locate == match auto_locate {
                Some(v) => v,
                None => old(state).auto_locate,
            }
            &&& *final(state) == (FeatureState {
                default_similarity: final(state).default_similarity,
                auto_locate: final(state).auto_locate,
                ..*old(state)
            })
        },
{
    if let Some(p) = default_similarity {
        if !(str_eq(p, "fuzzy.edit_distance") || str_eq(p, "fuzzy.char_ngram")) {
            return Err("unknown similarity provider".to_owned());
        }
        state.default_similarity = p.to_owned();
    }
    if let Some(v) = auto_locate {
        state.auto_locate = v;
    }
    Ok(())
}

/// Refuses work for the research feature unless it is ready.
pub fn check_ready(state: &FeatureState) -> (r: Result<(), String>)
    ensures
        r is Ok <==> state.status == FeatureStatus::Ready,
        r matches Err(m) ==> m@ == "research feature is not ready"@,
{
    if state.status != FeatureStatus::Ready {
        return Err("research feature is not ready".to_owned());
    }
    Ok(())
}

} // verus!
