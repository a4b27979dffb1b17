use vstd::prelude::*;
use crate::contract::{
    contract_delta, option_view, strategy_for, ContractDelta, ContractTransitionStrategy, ImportProcessingContract,
};
use crate::text::text_equal;

verus! {

/// Attempt-level or terminal observation from the writer-transition API.
#[derive(Clone, Copy, Debug, PartialEq, Eq, Structural)]
pub enum WriterContractTransitionOutcome {
    /// Committed writer contract already matches Desired.
    AlreadyActive,
    /// This call completed TargetCommitted (and optional WriterReady).
    TargetCommitted,
    TransitionRequired,
    TransitionInProgress,
    BlockedByRunningOwner,
    PersistedStateInvalid,
    UnsupportedTransition,
    RuntimeUnavailable,
}

/// Durable writer-transition phase.
#[derive(Clone, Copy, Debug, PartialEq, Eq, Structural)]
pub enum WriterTransitionPhase {
    Observed,
    ClaimsFenced,
    WorkersQuiesced,
    TargetCommitted,
    WriterReady,
}

/// Storage label of a writer-transition phase.
pub open spec fn writer_phase_label(phase: WriterTransitionPhase) -> Seq<char> {
    match phase {
        WriterTransitionPhase::Observed => "observed"@,
        WriterTransitionPhase::ClaimsFenced => "claims_fenced"@,
        WriterTransitionPhase::WorkersQuiesced => "workers_quiesced"@,
        WriterTransitionPhase::TargetCommitted => "target_committed"@,
        WriterTransitionPhase::WriterReady => "writer_ready"@,
    }
}

/// Phase named by a storage label, if any.
pub open spec fn writer_phase_from_label(label: Seq<char>) -> Option<WriterTransitionPhase> {
    if label == "observed"@ {
        Some(WriterTransitionPhase::Observed)
    } else if label == "claims_fenced"@ {
        Some(WriterTransitionPhase::ClaimsFenced)
    } else if label == "workers_quiesced"@ {
        Some(WriterTransitionPhase::WorkersQuiesced)
    } else if label == "target_committed"@ {
        Some(WriterTransitionPhase::TargetCommitted)
    } else if label == "writer_ready"@ {
        Some(WriterTransitionPhase::WriterReady)
    } else {
        None
    }
}

impl WriterTransitionPhase {
    pub fn as_str(self) -> (r: &'static str)
        ensures
            r@ == writer_phase_label(self),
    {
        match self {
            WriterTransitionPhase::Observed => "observed",
            WriterTransitionPhase::ClaimsFenced => "claims_fenced",
            WriterTransitionPhase::WorkersQuiesced => "workers_quiesced",
            WriterTransitionPhase::TargetCommitted => "target_committed",
            WriterTransitionPhase::WriterReady => "writer_ready",
        }
    }

    pub fn parse(value: &str) -> (r: Option<Self>)
        ensures
            r == writer_phase_from_label(value@),
    {
        if text_equal(value, "observed") {
            Some(WriterTransitionPhase::Observed)
        } else if text_equal(value, "claims_fenced") {
            Some(WriterTransitionPhase::ClaimsFenced)
        } else if text_equal(value, "workers_quiesced") {
            Some(WriterTransitionPhase::WorkersQuiesced)
        } else if text_equal(value, "target_committed") {
            Some(WriterTransitionPhase::TargetCommitted)
        } else if text_equal(value, "writer_ready") {
            Some(WriterTransitionPhase::WriterReady)
        } else {
            None
        }
    }
}

/// Parsing the label of a phase gives the phase back.
pub proof fn writer_phase_label_round_trip(phase: WriterTransitionPhase)
    ensures
        writer_phase_from_label(writer_phase_label(phase)) == Some(phase),
{
    reveal_strlit("observed");
    reveal_strlit("claims_fenced");
    reveal_strlit("workers_quiesced");
    reveal_strlit("target_committed");
    reveal_strlit("writer_ready");
    assert("claims_fenced"@.len() != "observed"@.len());
    assert("workers_quiesced"@.len() != "observed"@.len());
    assert("workers_quiesced"@.len() != "claims_fenced"@.len());
    assert("target_committed"@.len() != "observed"@.len());
    assert("target_committed"@.len() != "claims_fenced"@.len());
    assert("target_committed"@[0] != "workers_quiesced"@[0]);
    assert("writer_ready"@.len() != "observed"@.len());
    assert("writer_ready"@.len() != "claims_fenced"@.len());
    assert("writer_ready"@.len() != "workers_quiesced"@.len());
    assert("writer_ready"@.len() != "target_committed"@.len());
}

/// Public/redacted writer health projection.
#[derive(Clone, Copy, Debug, PartialEq, Eq, Structural)]
pub enum WriterAuthorityHealthState {
    Ready,
    Transitioning,
    Unavailable,
    Blocked,
}

/// Storage label of a writer health state.
pub open spec fn health_label(state: WriterAuthorityHealthState) -> Seq<char> {
    match state {
        WriterAuthorityHealthState::Ready => "ready"@,
        WriterAuthorityHealthState::Transitioning => "transitioning"@,
        WriterAuthorityHealthState::Unavailable => "unavailable"@,
        WriterAuthorityHealthState::Blocked => "blocked"@,
    }
}

/// Health state named by a storage label, if any.
pub open spec fn health_from_label(label: Seq<char>) -> Option<WriterAuthorityHealthState> {
    if label == "ready"@ {
        Some(WriterAuthorityHealthState::Ready)
    } else if label == "transitioning"@ {
        Some(WriterAuthorityHealthState::Transitioning)
    } else if label == "unavailable"@ {
        Some(WriterAuthorityHealthState::Unavailable)
    } else if label == "blocked"@ {
        Some(WriterAuthorityHealthState::Blocked)
    } else {
        None
    }
}

impl WriterAuthorityHealthState {
    pub fn as_str(self) -> (r: &'static str)
        ensures
            r@ == health_label(self),
    {
        match self {
            WriterAuthorityHealthState::Ready => "ready",
            WriterAuthorityHealthState::Transitioning => "transitioning",
            WriterAuthorityHealthState::Unavailable => "unavailable",
            WriterAuthorityHealthState::Blocked => "blocked",
        }
    }

    pub fn parse(value: &str) -> (r: Option<Self>)
        ensures
            r == health_from_label(value@),
    {
        if text_equal(value, "ready") {
            Some(WriterAuthorityHealthState::Ready)
        } else if text_equal(value, "transitioning") {
            Some(WriterAuthorityHealthState::Transitioning)
        } else if text_equal(value, "unavailable") {
            Some(WriterAuthorityHealthState::Unavailable)
        } else if text_equal(value, "blocked") {
            Some(WriterAuthorityHealthState::Blocked)
        } else {
            None
        }
    }
}

/// Parsing the label of a health state gives the state back.
pub proof fn health_label_round_trip(state: WriterAuthorityHealthState)
    ensures
        health_from_label(health_label(state)) == Some(state),
{
    reveal_strlit("ready");
    reveal_strlit("transitioning");
    reveal_strlit("unavailable");
    reveal_strlit("blocked");
    assert("transitioning"@.len() != "ready"@.len());
    assert("unavailable"@.len() != "ready"@.len());
    assert("unavailable"@.len() != "transitioning"@.len());
    assert("blocked"@.len() != "ready"@.len());
    assert("blocked"@.len() != "transitioning"@.len());
    assert("blocked"@.len() != "unavailable"@.len());
}

/// Snapshot of writer authority used by dormant APIs and later coordinator.
#[derive(Clone, Debug, PartialEq, Eq)]
pub struct WriterAuthoritySnapshot {
    pub health_state: WriterAuthorityHealthState,
    pub health_reason: Option<String>,
    pub transition_phase: Option<WriterTransitionPhase>,
    pub active_transition_id: Option<String>,
    pub last_completed_transition_id: Option<String>,
    pub claim_fence_epoch: u64,
    pub committed_contract_id: Option<String>,
    pub desired_contract_id: Option<String>,
}

/// Bounded internal transition receipt. Full digests stay private to the store.
#[derive(Clone, Debug, PartialEq, Eq)]
pub struct WriterTransitionReceipt {
    pub transition_id: String,
    pub phase: WriterTransitionPhase,
    pub attempt: u32,
    pub claim_fence_epoch: u64,
    pub failure_class: Option<&'static str>,
    pub retryable: bool,
    pub campaign_id: Option<String>,
}

/// Outcome of observing a desired contract: nothing to do when the delta is
/// already active, refused when unsupported, blocked while any task runs,
/// and otherwise a transition is required.
pub open spec fn observed_outcome(
    strategy: ContractTransitionStrategy,
    running_task_count: u64,
) -> WriterContractTransitionOutcome {
    if strategy == ContractTransitionStrategy::AlreadyActive {
        WriterContractTransitionOutcome::AlreadyActive
    } else if strategy == ContractTransitionStrategy::Unsupported {
        WriterContractTransitionOutcome::UnsupportedTransition
    } else if running_task_count > 0 {
        WriterContractTransitionOutcome::BlockedByRunningOwner
    } else {
        WriterContractTransitionOutcome::TransitionRequired
    }
}

/// Plans whether Desired requires an online transition without mutating state.
pub fn observe_writer_contract_transition(
    committed: Option<&ImportProcessingContract>,
    desired: &ImportProcessingContract,
    running_task_count: u64,
) -> (r: (ContractDelta, WriterContractTransitionOutcome))
    ensures
        r.0 == contract_delta(option_view(committed), desired@),
        r.0.strategy == strategy_for(option_view(committed), desired@),
        r.1 == observed_outcome(r.0.strategy, running_task_count),
{
    let delta = ContractDelta::between(committed, desired);
    if delta.strategy == ContractTransitionStrategy::AlreadyActive {
        return (delta, WriterContractTransitionOutcome::AlreadyActive);
    }
    if delta.strategy == ContractTransitionStrategy::Unsupported {
        return (delta, WriterContractTransitionOutcome::UnsupportedTransition);
    }
    if running_task_count > 0 {
        return (delta, WriterContractTransitionOutcome::BlockedByRunningOwner);
    }
    (delta, WriterContractTransitionOutcome::TransitionRequired)
}

/// Durable affected-domain label of a campaign strategy.
pub open spec fn campaign_domain_label(strategy: ContractTransitionStrategy) -> Option<Seq<char>> {
    match strategy {
        ContractTransitionStrategy::AlreadyActive => None,
        ContractTransitionStrategy::PdfRootRescan => Some("pdf_root_rescan"@),
        ContractTransitionStrategy::OcrRequeue => Some("ocr_requeue"@),
        ContractTransitionStrategy::ClassifierReclassify => Some("classifier_reclassify"@),
        ContractTransitionStrategy::DerivedRebuild => Some("derived_rebuild"@),
        ContractTransitionStrategy::Unsupported => Some("unsupported"@),
    }
}

/// Maps a campaign strategy onto the durable affected-domain label.
pub fn campaign_domain_for(strategy: ContractTransitionStrategy) -> (r: Option<&'static str>)
    ensures
        r is None <==> campaign_domain_label(strategy) is None,
        r matches Some(label) ==> campaign_domain_label(strategy) == Some(label@),
{
    match strategy {
        ContractTransitionStrategy::AlreadyActive => None,
        ContractTransitionStrategy::PdfRootRescan => Some("pdf_root_rescan"),
        ContractTransitionStrategy::OcrRequeue => Some("ocr_requeue"),
        ContractTransitionStrategy::ClassifierReclassify => Some("classifier_reclassify"),
        ContractTransitionStrategy::DerivedRebuild => Some("derived_rebuild"),
        ContractTransitionStrategy::Unsupported => Some("unsupported"),
    }
}

/// An identical committed contract is always already active, whatever runs.
pub proof fn identical_contract_is_already_active(
    contract: crate::contract::ContractView,
    running_task_count: u64,
)
    ensures
        observed_outcome(strategy_for(Some(contract), contract), running_task_count)
            == WriterContractTransitionOutcome::AlreadyActive,
{
}


/// Observing a desired contract decides by the delta and the running tasks
/// alone: nothing is to do exactly when every component of a committed
/// contract is unchanged; a transition is required only when a change can be
/// carried out and no task runs; it is blocked only while a task runs.
pub proof fn observation_follows_the_delta(
    committed: Option<crate::contract::ContractView>,
    desired: crate::contract::ContractView,
    running_task_count: u64,
)
    ensures
        ({
            let d = contract_delta(committed, desired);
            let o = observed_outcome(d.strategy, running_task_count);
            &&& o == WriterContractTransitionOutcome::AlreadyActive <==> (committed matches Some(c)
                && c == desired)
            &&& o == WriterContractTransitionOutcome::AlreadyActive <==> (committed is Some
                && !d.primary_parser_changed && !d.ocr_engine_changed
                && !d.normalization_schema_changed && !d.classifier_epoch_changed)
            &&& o == WriterContractTransitionOutcome::TransitionRequired ==> running_task_count
                == 0
            &&& o == WriterContractTransitionOutcome::BlockedByRunningOwner ==> running_task_count
                > 0
            &&& o != WriterContractTransitionOutcome::TargetCommitted
            &&& o != WriterContractTransitionOutcome::TransitionInProgress
            &&& committed is None ==> d.strategy == ContractTransitionStrategy::DerivedRebuild
            &&& (committed matches Some(c) && c.primary_parser != desired.primary_parser)
                ==> d.strategy == ContractTransitionStrategy::PdfRootRescan
        }),
{
}

} // verus!
