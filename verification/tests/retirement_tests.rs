use meta_store::authority::{ArtifactRepairKey, PublicationAuthority};
use meta_store::digest::ContentDigest;
use meta_store::error::{MetaStoreError, SearchPublicationFailure};
use meta_store::ids::UnixTimestamp;
use meta_store::projection_digest::SearchProjectionDigest;
use meta_store::publication_model::{
    SearchPublicationRecord, SearchPublicationRetirementFailureOutcome, SearchPublicationState,
};
use meta_store::retirement::{
    ensure_no_pending_retirement, parse_bool, parse_pending_retirements, parse_retirement_row,
    plan_artifact_completion, plan_retirement_begin, retirement_is_pending, ArtifactCompletion,
    RetirementBegin, RetirementRow, SearchArtifactExpectation, SearchPublicationRetirement,
    SearchPublicationRetirementArtifact, SearchPublicationRetirementPhase,
    SearchPublicationRetirementPlan, SEARCH_PUBLICATION_RETIREMENT_REPLAY_LIMIT,
};
use meta_store::retirement_settlement::{
    check_settlement_publication, settlement_next, settlement_start, SettlementAction,
    SettlementStep,
};

fn invalid_state() -> MetaStoreError {
    MetaStoreError::SearchPublication(SearchPublicationFailure::InvalidState)
}

fn plan(
    fulltext: SearchArtifactExpectation,
    vector: SearchArtifactExpectation,
) -> SearchPublicationRetirementPlan {
    SearchPublicationRetirementPlan { fulltext, vector }
}

fn publication(state: SearchPublicationState, base: Option<&str>, epoch: u64) -> SearchPublicationRecord {
    SearchPublicationRecord {
        generation: "gen-2".to_string(),
        base_generation: base.map(str::to_string),
        expected_visible_epoch: epoch,
        classifier_epoch: "resume-classifier.v1".to_string(),
        projection_digest: SearchProjectionDigest::from_pairs(&[]).unwrap(),
        publication_fingerprint: None,
        state,
        fulltext: None,
        vector: None,
        created_at: UnixTimestamp::from_unix_seconds(1),
        updated_at: UnixTimestamp::from_unix_seconds(1),
    }
}

fn row(phase: &str, fulltext: &str, vector: &str, f: i64, v: i64) -> RetirementRow {
    RetirementRow {
        generation: "gen-1".to_string(),
        phase: phase.to_string(),
        fulltext_expectation: fulltext.to_string(),
        vector_expectation: vector.to_string(),
        fulltext_complete: f,
        vector_complete: v,
    }
}

#[test]
fn begun_retirement_counts_absent_artifacts_as_removed() {
    let r = SearchPublicationRetirement::begun(
        "gen-1",
        plan(SearchArtifactExpectation::Absent, SearchArtifactExpectation::Published),
    );
    assert_eq!(r.phase, SearchPublicationRetirementPhase::Pending);
    assert!(r.fulltext_complete);
    assert!(!r.vector_complete);
    assert_eq!(r.generation, "gen-1");
}

#[test]
fn empty_plan_retirement_is_complete_at_once() {
    let r = SearchPublicationRetirement::begun("gen-1", SearchPublicationRetirementPlan::none());
    assert_eq!(r.phase, SearchPublicationRetirementPhase::Complete);
    assert!(r.fulltext_complete && r.vector_complete);
    assert!(!retirement_is_pending(Some(&r)));
}

#[test]
fn removing_both_artifacts_in_either_order_completes_the_same_record() {
    let r = SearchPublicationRetirement::begun(
        "gen-1",
        plan(SearchArtifactExpectation::Published, SearchArtifactExpectation::MayExist),
    );
    assert!(retirement_is_pending(Some(&r)));
    let a = r
        .with_removed(SearchPublicationRetirementArtifact::FullText)
        .with_removed(SearchPublicationRetirementArtifact::Vector);
    let b = r
        .with_removed(SearchPublicationRetirementArtifact::Vector)
        .with_removed(SearchPublicationRetirementArtifact::FullText);
    assert_eq!(a, b);
    assert_eq!(a.phase, SearchPublicationRetirementPhase::Complete);
    assert_eq!(a.with_removed(SearchPublicationRetirementArtifact::FullText), a);
}

#[test]
fn retirement_begins_only_for_an_unready_known_publication() {
    let p = plan(SearchArtifactExpectation::Published, SearchArtifactExpectation::Absent);
    assert_eq!(plan_retirement_begin(None, None, "gen-1", p), Err(invalid_state()));
    assert_eq!(
        plan_retirement_begin(Some(SearchPublicationState::Ready), None, "gen-1", p),
        Err(invalid_state())
    );
    match plan_retirement_begin(Some(SearchPublicationState::Validated), None, "gen-1", p) {
        Ok(RetirementBegin::Record { retirement, abandon_from }) => {
            assert_eq!(abandon_from, Some(SearchPublicationState::Validated));
            assert_eq!(retirement, SearchPublicationRetirement::begun("gen-1", p));
        }
        other => panic!("unexpected {other:?}"),
    }
    match plan_retirement_begin(Some(SearchPublicationState::Abandoned), None, "gen-1", p) {
        Ok(RetirementBegin::Record { abandon_from, .. }) => assert_eq!(abandon_from, None),
        other => panic!("unexpected {other:?}"),
    }
}

#[test]
fn repeated_retirement_begin_is_recorded_once() {
    let p = plan(SearchArtifactExpectation::Published, SearchArtifactExpectation::Absent);
    let existing = SearchPublicationRetirement::begun("gen-1", p);
    assert_eq!(
        plan_retirement_begin(Some(SearchPublicationState::Abandoned), Some(&existing), "gen-1", p),
        Ok(RetirementBegin::AlreadyRecorded)
    );
    let other = plan(SearchArtifactExpectation::MayExist, SearchArtifactExpectation::Absent);
    assert_eq!(
        plan_retirement_begin(Some(SearchPublicationState::Abandoned), Some(&existing), "gen-1", other),
        Err(invalid_state())
    );
    assert_eq!(
        plan_retirement_begin(Some(SearchPublicationState::Preparing), Some(&existing), "gen-1", p),
        Err(invalid_state())
    );
}

#[test]
fn artifact_completion_follows_the_recorded_retirement() {
    let artifact = SearchPublicationRetirementArtifact::Vector;
    assert_eq!(plan_artifact_completion(None, artifact), Err(invalid_state()));
    let r = SearchPublicationRetirement::begun(
        "gen-1",
        plan(SearchArtifactExpectation::Absent, SearchArtifactExpectation::Published),
    );
    let done = match plan_artifact_completion(Some(&r), artifact) {
        Ok(ArtifactCompletion::Complete(done)) => done,
        other => panic!("unexpected {other:?}"),
    };
    assert_eq!(done.phase, SearchPublicationRetirementPhase::Complete);
    assert_eq!(
        plan_artifact_completion(Some(&done), artifact),
        Ok(ArtifactCompletion::AlreadyComplete)
    );
    assert_eq!(
        plan_artifact_completion(Some(&r), SearchPublicationRetirementArtifact::FullText),
        Ok(ArtifactCompletion::AlreadyComplete)
    );
    assert_eq!(SearchPublicationRetirementArtifact::FullText.as_str(), "fulltext");
    assert_eq!(artifact.as_str(), "vector");
}

#[test]
fn pending_retirements_block_new_work() {
    assert_eq!(ensure_no_pending_retirement(&[]), Ok(()));
    let r = SearchPublicationRetirement::begun(
        "gen-1",
        plan(SearchArtifactExpectation::Published, SearchArtifactExpectation::Published),
    );
    assert_eq!(ensure_no_pending_retirement(&[r]), Err(invalid_state()));
}

#[test]
fn stored_retirement_rows_parse_exactly() {
    let parsed = parse_retirement_row(row("pending", "published", "none", 0, 1)).unwrap();
    assert_eq!(parsed.generation, "gen-1");
    assert_eq!(parsed.phase, SearchPublicationRetirementPhase::Pending);
    assert_eq!(
        parsed.plan,
        plan(SearchArtifactExpectation::Published, SearchArtifactExpectation::Absent)
    );
    assert!(!parsed.fulltext_complete && parsed.vector_complete);
    let persisted = MetaStoreError::SearchPublication(SearchPublicationFailure::InvalidPersistedState);
    assert_eq!(parse_retirement_row(row("done", "none", "none", 1, 1)), Err(persisted));
    assert_eq!(parse_retirement_row(row("complete", "maybe", "none", 1, 1)), Err(persisted));
    assert_eq!(parse_retirement_row(row("complete", "none", "none", 2, 1)), Err(persisted));
    assert_eq!(parse_bool(0), Ok(false));
    assert_eq!(parse_bool(1), Ok(true));
    assert_eq!(parse_bool(-1), Err(persisted));
}

#[test]
fn excessive_pending_retirements_fail_closed() {
    let rows = vec![row("pending", "may_exist", "published", 0, 0); 3];
    assert_eq!(parse_pending_retirements(rows).unwrap().len(), 3);
    let rows = vec![
        row("pending", "may_exist", "published", 0, 0);
        SEARCH_PUBLICATION_RETIREMENT_REPLAY_LIMIT + 1
    ];
    assert_eq!(
        parse_pending_retirements(rows),
        Err(MetaStoreError::SearchPublication(
            SearchPublicationFailure::InvalidPersistedState
        ))
    );
}

#[test]
fn expectation_labels_round_trip() {
    for (label, value) in [
        ("none", SearchArtifactExpectation::Absent),
        ("may_exist", SearchArtifactExpectation::MayExist),
        ("published", SearchArtifactExpectation::Published),
    ] {
        assert_eq!(SearchArtifactExpectation::parse(label), Ok(value));
        assert_eq!(value.as_str(), label);
    }
    assert!(SearchArtifactExpectation::parse("None").is_err());
    assert_eq!(SearchPublicationRetirementPhase::Complete.as_str(), "complete");
}

#[test]
fn settlement_requires_an_abandoned_publication() {
    assert_eq!(check_settlement_publication(None), Err(invalid_state()));
    let ready = publication(SearchPublicationState::Ready, None, 0);
    assert_eq!(check_settlement_publication(Some(&ready)), Err(invalid_state()));
    let abandoned = publication(SearchPublicationState::Abandoned, None, 0);
    assert_eq!(check_settlement_publication(Some(&abandoned)), Ok(()));
}

#[test]
fn current_head_settlement_blocks_or_reports_the_head() {
    let p = publication(SearchPublicationState::Abandoned, Some("gen-1"), 3);
    assert_eq!(
        settlement_start(None, &p),
        Err(MetaStoreError::SearchPublication(
            SearchPublicationFailure::InvalidPersistedState
        ))
    );
    assert_eq!(
        settlement_start(Some(&PublicationAuthority::CurrentHead), &p),
        Ok(SettlementAction::Perform(SettlementStep::BlockCurrentHead))
    );
    assert_eq!(
        settlement_next(SettlementStep::BlockCurrentHead, true),
        SettlementAction::Commit(SearchPublicationRetirementFailureOutcome::HeadBlocked)
    );
    assert_eq!(
        settlement_next(SettlementStep::BlockCurrentHead, false),
        SettlementAction::Perform(SettlementStep::ExactCurrentHeadBlocked)
    );
    assert_eq!(
        settlement_next(SettlementStep::ExactCurrentHeadBlocked, true),
        SettlementAction::Commit(SearchPublicationRetirementFailureOutcome::ExactHeadAlreadyBlocked)
    );
    assert_eq!(
        settlement_next(SettlementStep::ExactCurrentHeadBlocked, false),
        SettlementAction::Commit(SearchPublicationRetirementFailureOutcome::HeadSuperseded)
    );
}

#[test]
fn artifact_repair_settlement_checks_the_exact_key_first() {
    let digest = ContentDigest::from_bytes(b"fingerprint");
    let attempt = ContentDigest::from_bytes(b"attempt");
    let authority = PublicationAuthority::ArtifactRepair {
        key: ArtifactRepairKey::new("gen-1".to_string(), digest, 3),
        attempt_id: attempt,
        attempt_count: 1,
    };
    let same = publication(SearchPublicationState::Abandoned, Some("gen-1"), 3);
    assert_eq!(
        settlement_start(Some(&authority), &same),
        Ok(SettlementAction::Perform(SettlementStep::TerminalArtifactCleanup))
    );
    let other = publication(SearchPublicationState::Abandoned, Some("gen-1"), 4);
    assert_eq!(
        settlement_start(Some(&authority), &other),
        Ok(SettlementAction::Perform(SettlementStep::RunningArtifactAttempt))
    );
}

#[test]
fn stale_settlement_updates_roll_back() {
    for step in [
        SettlementStep::SettleMigrationAttempt,
        SettlementStep::BlockMigrationHead,
        SettlementStep::SettleArtifactAttempt,
        SettlementStep::BlockArtifactHead,
    ] {
        assert_eq!(
            settlement_next(step, false),
            SettlementAction::Rollback(SearchPublicationRetirementFailureOutcome::HeadSuperseded)
        );
    }
}

#[test]
fn migration_settlement_runs_to_a_blocked_head() {
    let mut action = SettlementAction::Perform(SettlementStep::MigrationBarrierMatches);
    let mut steps = 0;
    while let SettlementAction::Perform(step) = action {
        action = settlement_next(step, true);
        steps += 1;
    }
    assert_eq!(
        action,
        SettlementAction::Commit(SearchPublicationRetirementFailureOutcome::HeadBlocked)
    );
    assert_eq!(steps, 4);
}
