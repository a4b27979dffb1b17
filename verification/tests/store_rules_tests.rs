use meta_store::error::{MetaStoreError, SearchPublicationFailure};
use meta_store::ids::{SourceRevisionId, SourceRootId, UnixTimestamp};
use meta_store::lifecycle::{
    commit_candidate, next_publication_state, next_visible_epoch, plan_begin, require_single_change,
    storage_count, PublicationStep,
};
use meta_store::observation::{
    admit_scan, backfill_receipt, nanoseconds, next_revocation_epoch, observation_byte_size,
    observation_count, renewed_max_attempts, source_file_observation_from_row,
    source_root_is_deleting, validate_epoch, validate_observation, validate_scan_commit,
    ObservationRow, StrongSourceFileObservation, MAX_ROOT_REVOCATION_EPOCH,
};
use meta_store::privacy::{
    check_purged_count, check_secure_delete, compaction_decision, empty_purge_report,
    purge_batch_decision, purge_report, CompactionAction, PrivacyPurgeReport, PurgeBatch,
};
use meta_store::authority::PublicationAuthority;
use meta_store::projection_digest::SearchProjectionDigest;
use meta_store::publication_model::{
    SearchPublicationOutcome, SearchPublicationRecord, SearchPublicationState,
};
use meta_store::source_root_deletion::{
    deletion_phase_transition_allowed, source_root_deletion_from_persisted,
    PersistedSourceRootDeletion, SourceRootDeletion, SourceRootDeletionCompletionResiduals,
    SourceRootDeletionErrorCode, SourceRootDeletionPhase, MAX_DELETION_ATTEMPT_COUNT,
};

const STABLE_ID: &str = "sfi_0123456789abcdef0123456789abcdef";
const DIGEST: &str = "sha256:e3b0c44298fc1c149afbf4c8996fb92427ae41e4649b934ca495991b7852b855";

fn at(seconds: i64) -> UnixTimestamp {
    UnixTimestamp::from_unix_seconds(seconds)
}

fn record(state: SearchPublicationState, epoch: u64) -> SearchPublicationRecord {
    SearchPublicationRecord {
        generation: "gen-1".to_string(),
        base_generation: None,
        expected_visible_epoch: epoch,
        classifier_epoch: "resume-classifier.v1".to_string(),
        projection_digest: SearchProjectionDigest::from_pairs(&[]).unwrap(),
        publication_fingerprint: None,
        state,
        fulltext: None,
        vector: None,
        created_at: at(1),
        updated_at: at(1),
    }
}

fn observation() -> StrongSourceFileObservation {
    StrongSourceFileObservation {
        source_revision_id: SourceRevisionId::parse("rev-1").unwrap(),
        stable_file_id: STABLE_ID.to_string(),
        byte_size: 10,
        mtime_seconds: 5,
        mtime_nanoseconds: 999_999_999,
        ctime_seconds: 6,
        ctime_nanoseconds: 0,
        strongly_verified_at: at(100),
        next_strong_verification_at: at(200),
    }
}

fn receipt() -> SourceRootDeletion {
    SourceRootDeletion::requested(SourceRootId::parse("root-1").unwrap(), 3, at(100))
}

#[test]
fn publication_steps_move_forward_only() {
    let (preparing, validated, ready, abandoned) = (
        SearchPublicationState::Preparing,
        SearchPublicationState::Validated,
        SearchPublicationState::Ready,
        SearchPublicationState::Abandoned,
    );
    assert_eq!(next_publication_state(preparing, PublicationStep::Validate), Some(validated));
    assert_eq!(next_publication_state(validated, PublicationStep::Commit), Some(ready));
    assert_eq!(next_publication_state(preparing, PublicationStep::Commit), None);
    assert_eq!(next_publication_state(validated, PublicationStep::Validate), None);
    assert_eq!(next_publication_state(ready, PublicationStep::Abandon), None);
    assert_eq!(next_publication_state(abandoned, PublicationStep::Abandon), Some(abandoned));
    assert_eq!(next_publication_state(abandoned, PublicationStep::Commit), None);
    assert_eq!(next_publication_state(preparing, PublicationStep::Abandon), Some(abandoned));
}

#[test]
fn begin_without_authority_is_superseded_and_retired_at_once() {
    let plan = plan_begin(None);
    assert_eq!(plan.outcome, SearchPublicationOutcome::Superseded);
    assert_eq!(plan.authority, PublicationAuthority::CurrentHead);
    assert!(plan.retire_now);
    let plan = plan_begin(Some(PublicationAuthority::CurrentHead));
    assert_eq!(plan.outcome, SearchPublicationOutcome::Applied);
    assert!(!plan.retire_now);
}

#[test]
fn only_a_validated_publication_is_committed() {
    let invalid = Err(MetaStoreError::SearchPublication(SearchPublicationFailure::InvalidState));
    assert_eq!(commit_candidate(None), invalid);
    assert_eq!(commit_candidate(Some(record(SearchPublicationState::Ready, 0))), invalid);
    let validated = record(SearchPublicationState::Validated, 0);
    assert_eq!(commit_candidate(Some(validated.clone())), Ok(validated));
}

#[test]
fn visible_epoch_advances_by_one_and_refuses_overflow() {
    assert_eq!(next_visible_epoch(&record(SearchPublicationState::Validated, 7)), Ok(8));
    assert_eq!(
        next_visible_epoch(&record(SearchPublicationState::Validated, u64::MAX)),
        Err(MetaStoreError::SearchPublication(SearchPublicationFailure::InvalidState))
    );
    assert_eq!(storage_count(5), Ok(5));
    assert!(storage_count(u64::MAX).is_err());
    assert_eq!(require_single_change(1, SearchPublicationFailure::InvalidState), Ok(()));
    assert_eq!(
        require_single_change(0, SearchPublicationFailure::ProjectionMismatch),
        Err(MetaStoreError::SearchPublication(SearchPublicationFailure::ProjectionMismatch))
    );
}

#[test]
fn privacy_compaction_follows_the_receipt() {
    assert_eq!(compaction_decision(false, 7, true), Ok(CompactionAction::Nothing));
    assert_eq!(compaction_decision(true, 0, true), Ok(CompactionAction::Nothing));
    assert_eq!(compaction_decision(true, 1, true), Ok(CompactionAction::Compact { vacuum: true }));
    assert_eq!(compaction_decision(true, 1, false), Ok(CompactionAction::Compact { vacuum: false }));
    assert_eq!(compaction_decision(true, 2, true), Err(MetaStoreError::StorageInvariant));
}

#[test]
fn privacy_purge_never_removes_projected_documents() {
    assert_eq!(purge_batch_decision(0, true), Ok(PurgeBatch::Empty));
    assert_eq!(purge_batch_decision(3, false), Ok(PurgeBatch::Purge));
    assert_eq!(purge_batch_decision(3, true), Err(MetaStoreError::InvalidTransition));
    assert_eq!(empty_purge_report(), PrivacyPurgeReport { deleted_documents: 0, remaining_tombstones: 0 });
    assert_eq!(check_purged_count(3, 3), Ok(()));
    assert_eq!(check_purged_count(2, 3), Err(MetaStoreError::StorageInvariant));
    assert_eq!(
        purge_report(3, 17),
        Ok(PrivacyPurgeReport { deleted_documents: 3, remaining_tombstones: 17 })
    );
    assert_eq!(purge_report(3, -1), Err(MetaStoreError::StorageInvariant));
    assert_eq!(check_secure_delete(1), Ok(()));
    assert_eq!(check_secure_delete(0), Err(MetaStoreError::StorageInvariant));
}

#[test]
fn observations_are_validated_before_recording() {
    assert_eq!(validate_observation(&observation()), Ok(()));
    let refused = Err(MetaStoreError::InvalidValue("source_file_observation"));
    let mut o = observation();
    o.stable_file_id = "sfi_0123".to_string();
    assert_eq!(validate_observation(&o), refused);
    let mut o = observation();
    o.stable_file_id = STABLE_ID.to_uppercase();
    assert_eq!(validate_observation(&o), refused);
    let mut o = observation();
    o.mtime_nanoseconds = 1_000_000_000;
    assert_eq!(validate_observation(&o), refused);
    let mut o = observation();
    o.next_strong_verification_at = at(100);
    assert_eq!(validate_observation(&o), refused);
    let mut o = observation();
    o.strongly_verified_at = at(-1);
    assert_eq!(validate_observation(&o), refused);
}

#[test]
fn observation_rows_read_back_exactly() {
    let row = ObservationRow {
        source_revision_id: "rev-1".to_string(),
        content_hash: DIGEST.to_string(),
        stable_file_id: STABLE_ID.to_string(),
        byte_size: 10,
        mtime_seconds: 5,
        mtime_nanoseconds: 7,
        ctime_seconds: 6,
        ctime_nanoseconds: 8,
        strongly_verified_at_seconds: 100,
        next_strong_verification_at_seconds: 200,
    };
    let o = source_file_observation_from_row(row.clone()).unwrap();
    assert_eq!(o.source_revision_id.as_str(), "rev-1");
    assert_eq!(o.content_hash.as_str(), DIGEST);
    assert_eq!(o.byte_size, 10);
    assert_eq!((o.mtime_nanoseconds, o.ctime_nanoseconds), (7, 8));
    assert_eq!(o.next_strong_verification_at.as_unix_seconds(), 200);
    let mut bad = row.clone();
    bad.byte_size = -1;
    assert!(source_file_observation_from_row(bad).is_none());
    let mut bad = row.clone();
    bad.content_hash = "sha256:00".to_string();
    assert!(source_file_observation_from_row(bad).is_none());
    let mut bad = row;
    bad.ctime_nanoseconds = 1_000_000_000;
    assert!(source_file_observation_from_row(bad).is_none());
    assert_eq!(nanoseconds(-1), None);
    assert_eq!(nanoseconds(999_999_999), Some(999_999_999));
    assert_eq!(observation_byte_size(u64::MAX), Err(MetaStoreError::InvalidValue("observation.byte_size")));
    assert_eq!(observation_count(4), Ok(4));
    assert_eq!(observation_count(-4), Err(MetaStoreError::StorageInvariant));
}

#[test]
fn revocation_epochs_grow_and_fence_old_scans() {
    assert_eq!(validate_epoch(0), Ok(()));
    assert_eq!(validate_epoch(-1), Err(MetaStoreError::StorageInvariant));
    assert_eq!(validate_epoch(MAX_ROOT_REVOCATION_EPOCH + 1), Err(MetaStoreError::StorageInvariant));
    assert_eq!(next_revocation_epoch(4), Ok(5));
    assert_eq!(
        next_revocation_epoch(MAX_ROOT_REVOCATION_EPOCH),
        Err(MetaStoreError::InvalidTransition)
    );
    let captured = admit_scan(4, None).unwrap();
    assert_eq!(validate_scan_commit(captured, 4, None), Ok(()));
    let revoked = next_revocation_epoch(captured).unwrap();
    assert_eq!(
        validate_scan_commit(captured, revoked, None),
        Err(MetaStoreError::InvalidTransition)
    );
    assert_eq!(
        validate_scan_commit(captured, 4, Some(SourceRootDeletionPhase::Purging)),
        Err(MetaStoreError::InvalidTransition)
    );
    assert_eq!(validate_scan_commit(captured, 4, Some(SourceRootDeletionPhase::Failed)), Ok(()));
    assert_eq!(
        admit_scan(4, Some(SourceRootDeletionPhase::Requested)),
        Err(MetaStoreError::InvalidTransition)
    );
    assert_eq!(admit_scan(-2, None), Err(MetaStoreError::StorageInvariant));
}

#[test]
fn deleting_roots_and_backfilled_receipts() {
    assert_eq!(source_root_is_deleting(None), Ok(false));
    assert_eq!(source_root_is_deleting(Some("quiescing")), Ok(true));
    assert_eq!(source_root_is_deleting(Some("complete")), Ok(false));
    assert!(source_root_is_deleting(Some("paused")).is_err());
    assert_eq!(backfill_receipt(SourceRootDeletionPhase::Requested, true), Ok(true));
    assert_eq!(backfill_receipt(SourceRootDeletionPhase::Complete, false), Ok(false));
    assert_eq!(backfill_receipt(SourceRootDeletionPhase::Complete, true), Err(MetaStoreError::StorageInvariant));
    assert_eq!(backfill_receipt(SourceRootDeletionPhase::Failed, false), Err(MetaStoreError::StorageInvariant));
    assert_eq!(renewed_max_attempts(2), Ok(5));
    assert_eq!(renewed_max_attempts(-1), Err(MetaStoreError::InvalidValue("ingest_job.attempt_count")));
    assert_eq!(
        renewed_max_attempts(u32::MAX as i64),
        Err(MetaStoreError::InvalidValue("ingest_job.max_attempts"))
    );
}

#[test]
fn deletion_phases_advance_one_stage_at_a_time() {
    let p = |label: &str| SourceRootDeletionPhase::parse(label).unwrap();
    assert!(deletion_phase_transition_allowed(p("requested"), p("quiescing")));
    assert!(deletion_phase_transition_allowed(p("verifying"), p("complete")));
    assert!(deletion_phase_transition_allowed(p("purging"), p("failed")));
    assert!(deletion_phase_transition_allowed(p("purging"), p("purging")));
    assert!(!deletion_phase_transition_allowed(p("requested"), p("purging")));
    assert!(!deletion_phase_transition_allowed(p("failed"), p("requested")));
    assert!(!deletion_phase_transition_allowed(p("complete"), p("verifying")));
}

#[test]
fn deletion_receipt_walks_to_completion() {
    let mut d = receipt();
    assert!(d.in_progress());
    assert_eq!(d.set_phase(SourceRootDeletionPhase::Purging, at(101)), Err(MetaStoreError::InvalidTransition));
    d.set_phase(SourceRootDeletionPhase::Quiescing, at(101)).unwrap();
    d.set_phase(SourceRootDeletionPhase::Publishing, at(99)).unwrap();
    assert_eq!(d.updated_at.as_unix_seconds(), 101);
    d.set_phase(SourceRootDeletionPhase::Purging, at(102)).unwrap();
    d.record_purge(3, at(103)).unwrap();
    assert_eq!(d.phase, SourceRootDeletionPhase::Verifying);
    assert_eq!(d.removed_documents, 3);
    let mut residuals = SourceRootDeletionCompletionResiduals::default();
    residuals.documents = 1;
    residuals.total = 1;
    assert_eq!(d.complete(&residuals, at(104)), Err(MetaStoreError::StorageInvariant));
    assert_eq!(d.phase, SourceRootDeletionPhase::Verifying);
    d.complete(&SourceRootDeletionCompletionResiduals::default(), at(104)).unwrap();
    assert_eq!(d.phase, SourceRootDeletionPhase::Complete);
    assert_eq!(d.completed_at, Some(at(104)));
    assert!(!d.in_progress());
    assert_eq!(d.begin_attempt(at(105)), Err(MetaStoreError::InvalidTransition));
}

#[test]
fn deletion_attempt_evidence_is_kept_per_attempt() {
    let mut d = receipt();
    assert_eq!(
        d.record_attempt_failure(
            SourceRootDeletionPhase::Requested,
            SourceRootDeletionErrorCode::Internal,
            at(101)
        ),
        Err(MetaStoreError::InvalidTransition)
    );
    d.begin_attempt(at(110)).unwrap();
    assert_eq!(d.attempt_count, 1);
    assert_eq!(d.last_attempt_at, Some(at(110)));
    d.record_attempt_failure(
        SourceRootDeletionPhase::Requested,
        SourceRootDeletionErrorCode::ImportQuiescenceTimeout,
        at(105),
    )
    .unwrap();
    assert_eq!(d.last_error_at, Some(at(110)));
    assert_eq!(d.last_error_code, Some(SourceRootDeletionErrorCode::ImportQuiescenceTimeout));
    assert_eq!(
        d.record_attempt_failure(
            SourceRootDeletionPhase::Purging,
            SourceRootDeletionErrorCode::Internal,
            at(111)
        ),
        Err(MetaStoreError::InvalidTransition)
    );
    d.begin_attempt(at(100)).unwrap();
    assert_eq!(d.attempt_count, 2);
    assert_eq!(d.last_attempt_at, Some(at(110)));
    assert_eq!(d.last_error_code, None);
}

#[test]
fn saturated_attempt_count_does_not_block_the_next_deletion_attempt() {
    let requested_at = UnixTimestamp::from_unix_seconds(1_800_302_000);
    let next_attempt_at = UnixTimestamp::from_unix_seconds(1_800_302_001);
    let mut saturated =
        SourceRootDeletion::requested(SourceRootId::parse("root-saturated").unwrap(), 0, requested_at);
    saturated.attempt_count = 9_007_199_254_740_991;
    saturated.last_attempt_at = Some(requested_at);
    saturated.last_error_phase = Some(SourceRootDeletionPhase::Requested);
    saturated.last_error_code = Some(SourceRootDeletionErrorCode::Internal);
    saturated.last_error_at = Some(requested_at);

    saturated.begin_attempt(next_attempt_at).unwrap();

    assert_eq!(saturated.attempt_count, 9_007_199_254_740_991);
    assert_eq!(saturated.attempt_count, MAX_DELETION_ATTEMPT_COUNT);
    assert_eq!(saturated.last_attempt_at, Some(next_attempt_at));
    assert_eq!(saturated.last_error_phase, None);
    assert_eq!(saturated.last_error_code, None);
    assert_eq!(saturated.last_error_at, None);
}

#[test]
fn deletion_attempt_evidence_rejects_unproduced_error_codes() {
    let now = UnixTimestamp::from_unix_seconds(1_800_301_000);
    for retired_code in ["receipt_unavailable", "service_unavailable"] {
        assert!(
            SourceRootDeletionErrorCode::parse(retired_code).is_err(),
            "retired error code {retired_code} accepted"
        );
        let row = PersistedSourceRootDeletion {
            root_id: "root-error-vocabulary".to_string(),
            phase: "requested".to_string(),
            affected_documents: 0,
            removed_documents: 0,
            started_at_seconds: now.as_unix_seconds(),
            updated_at_seconds: now.as_unix_seconds(),
            completed_at_seconds: None,
            attempt_count: 1,
            last_attempt_at_seconds: Some(now.as_unix_seconds()),
            last_error_phase: Some("requested".to_string()),
            last_error_code: Some(retired_code.to_string()),
            last_error_at_seconds: Some(now.as_unix_seconds()),
        };
        assert!(
            source_root_deletion_from_persisted(row).is_err(),
            "retired error code {retired_code} read back"
        );
    }
}

#[test]
fn stored_deletion_receipts_read_back() {
    let row = PersistedSourceRootDeletion {
        root_id: "root-1".to_string(),
        phase: "purging".to_string(),
        affected_documents: 3,
        removed_documents: 0,
        started_at_seconds: 100,
        updated_at_seconds: 101,
        completed_at_seconds: None,
        attempt_count: 2,
        last_attempt_at_seconds: Some(101),
        last_error_phase: Some("purging".to_string()),
        last_error_code: Some("metadata_purge_failed".to_string()),
        last_error_at_seconds: Some(101),
    };
    let d = source_root_deletion_from_persisted(row.clone()).unwrap();
    assert_eq!(d.phase, SourceRootDeletionPhase::Purging);
    assert_eq!(d.attempt_count, 2);
    assert_eq!(d.last_error_code, Some(SourceRootDeletionErrorCode::MetadataPurgeFailed));
    assert_eq!(d.last_error_phase, Some(SourceRootDeletionPhase::Purging));
    let mut bad = row.clone();
    bad.last_error_code = Some("receipt_unavailable".to_string());
    assert!(source_root_deletion_from_persisted(bad).is_err());
    let mut bad = row;
    bad.removed_documents = -1;
    assert!(source_root_deletion_from_persisted(bad).is_err());
    for (label, code) in [
        ("import_quiescence_timeout", SourceRootDeletionErrorCode::ImportQuiescenceTimeout),
        ("internal", SourceRootDeletionErrorCode::Internal),
    ] {
        assert_eq!(SourceRootDeletionErrorCode::parse(label), Ok(code));
        assert_eq!(code.as_str(), label);
    }
    assert!(SourceRootDeletionErrorCode::parse("service_unavailable").is_err());
}

#[test]
fn every_kind_of_residual_row_blocks_completion() {
    let verifying = || {
        let mut d = receipt();
        d.set_phase(SourceRootDeletionPhase::Quiescing, at(101)).unwrap();
        d.set_phase(SourceRootDeletionPhase::Publishing, at(101)).unwrap();
        d.set_phase(SourceRootDeletionPhase::Purging, at(101)).unwrap();
        d.record_purge(3, at(102)).unwrap();
        d
    };
    let kinds: [fn(&mut SourceRootDeletionCompletionResiduals); 8] = [
        |r| r.source_occurrences = 5,
        |r| r.scan_snapshots = 1,
        |r| r.pdf_reprocess_jobs = 1,
        |r| r.import_tasks = 1,
        |r| r.authorized_import_roots = 1,
        |r| r.documents = 3,
        |r| r.active_search_projections = 1,
        |r| r.ocr_page_cache = 1,
    ];
    for set in kinds {
        let mut residuals = SourceRootDeletionCompletionResiduals::default();
        set(&mut residuals);
        assert!(!residuals.is_empty());
        let mut d = verifying();
        assert_eq!(d.complete(&residuals, at(104)), Err(MetaStoreError::StorageInvariant));
        assert_eq!(d.phase, SourceRootDeletionPhase::Verifying);
    }
    let mut d = verifying();
    assert!(SourceRootDeletionCompletionResiduals::default().is_empty());
    d.complete(&SourceRootDeletionCompletionResiduals::default(), at(104)).unwrap();
    assert_eq!(d.phase, SourceRootDeletionPhase::Complete);
}

#[test]
fn quiescing_takes_the_reconciled_document_count() {
    let mut d = receipt();
    d.begin_attempt(at(101)).unwrap();
    d.advance_to_quiescing(1, at(102)).unwrap();
    assert_eq!(d.phase, SourceRootDeletionPhase::Quiescing);
    assert_eq!(d.affected_documents, 1);
    assert_eq!(d.updated_at, at(102));
    assert_eq!(d.attempt_count, 1);
    assert_eq!(d.last_attempt_at, Some(at(101)));
    assert_eq!(d.advance_to_quiescing(2, at(103)), Err(MetaStoreError::InvalidTransition));
    assert_eq!(d.affected_documents, 1);
}
