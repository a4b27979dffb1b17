use meta_store::contract::{ContractTransitionStrategy, ImportProcessingContract, CLASSIFIER_EPOCH};
use meta_store::writer_transition::{
    campaign_domain_for, observe_writer_contract_transition, WriterAuthorityHealthState,
    WriterContractTransitionOutcome, WriterTransitionPhase,
};

fn contract(primary: &str) -> ImportProcessingContract {
    ImportProcessingContract::new(primary, "ocr-v1", "resume-ir-s9-v2", CLASSIFIER_EPOCH).unwrap()
}

#[test]
fn observe_marks_identical_contracts_already_active() {
    let desired = contract("parser-pdfium-v2");
    let (_, outcome) = observe_writer_contract_transition(Some(&desired), &desired, 0);
    assert_eq!(outcome, WriterContractTransitionOutcome::AlreadyActive);
}

#[test]
fn observe_requires_transition_when_primary_parser_changes() {
    let committed = contract("parser-v1");
    let desired = contract("parser-pdfium-v2");
    let (_, outcome) = observe_writer_contract_transition(Some(&committed), &desired, 0);
    assert_eq!(outcome, WriterContractTransitionOutcome::TransitionRequired);
}

#[test]
fn observe_blocks_on_running_owner_before_commit() {
    let committed = contract("parser-v1");
    let desired = contract("parser-pdfium-v2");
    let (_, outcome) = observe_writer_contract_transition(Some(&committed), &desired, 2);
    assert_eq!(
        outcome,
        WriterContractTransitionOutcome::BlockedByRunningOwner
    );
}

#[test]
fn contract_components_must_be_present_and_bounded() {
    assert!(ImportProcessingContract::new("", "ocr-v1", "schema", CLASSIFIER_EPOCH).is_err());
    let long = "p".repeat(129);
    assert!(ImportProcessingContract::new(&long, "ocr-v1", "schema", CLASSIFIER_EPOCH).is_err());
    let c = contract("parser-v1");
    assert_eq!(c.primary_parser(), "parser-v1");
    assert_eq!(c.ocr_engine(), "ocr-v1");
    assert_eq!(c.normalization_schema(), "resume-ir-s9-v2");
    assert_eq!(c.classifier_epoch(), CLASSIFIER_EPOCH);
}

#[test]
fn first_contract_without_committed_one_requires_transition() {
    let desired = contract("parser-v1");
    let (delta, outcome) = observe_writer_contract_transition(None, &desired, 0);
    assert_ne!(delta.strategy, ContractTransitionStrategy::AlreadyActive);
    assert_ne!(outcome, WriterContractTransitionOutcome::AlreadyActive);
}

#[test]
fn identical_contracts_stay_active_even_with_running_owners() {
    let desired = contract("parser-v1");
    let (delta, outcome) = observe_writer_contract_transition(Some(&desired), &desired, 7);
    assert_eq!(delta.strategy, ContractTransitionStrategy::AlreadyActive);
    assert_eq!(outcome, WriterContractTransitionOutcome::AlreadyActive);
    assert_eq!(campaign_domain_for(ContractTransitionStrategy::AlreadyActive), None);
}

#[test]
fn primary_parser_change_is_a_pdf_root_rescan() {
    let committed = contract("parser-v1");
    let desired = contract("parser-pdfium-v2");
    let (delta, _) = observe_writer_contract_transition(Some(&committed), &desired, 0);
    assert_eq!(delta.strategy, ContractTransitionStrategy::PdfRootRescan);
    assert_eq!(campaign_domain_for(delta.strategy), Some("pdf_root_rescan"));
}

#[test]
fn writer_labels_round_trip() {
    for label in [
        "observed",
        "claims_fenced",
        "workers_quiesced",
        "target_committed",
        "writer_ready",
    ] {
        assert_eq!(WriterTransitionPhase::parse(label).unwrap().as_str(), label);
    }
    assert_eq!(WriterAuthorityHealthState::parse("ready").unwrap().as_str(), "ready");
    assert!(WriterTransitionPhase::parse("bogus").is_none());
    assert!(WriterAuthorityHealthState::parse("bogus").is_none());
}
