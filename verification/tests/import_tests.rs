use meta_store::error::MetaStoreError;
use meta_store::ids::{DocumentId, SourceRevisionId, UnixTimestamp};
use meta_store::import_commit::{
    check_bound_import_commit, displaced_document, BoundImportMutationKind, ImportTaskPurpose,
    IngestStageKind, occurrence_change, reprocess_attempt_available, requeued_reprocess_state,
    validate_observation_source, validate_parser_contract, validate_read_failure_observation,
    OccurrenceChange, PreviousOccurrence, SourceRootBoundImportCommitOutcome,
    SourceRootBoundImportObservation, MAX_REPROCESS_ATTEMPTS,
};
use meta_store::observation::StrongSourceFileObservation;
use meta_store::selection::{
    bound_decoded_selection_version, bound_selection_version, document_lengths_within_bounds,
    mentions_within_bounds, parse_candidate_assignment, BoundedSelectionVersion,
    SelectionVersionRow,
};
use meta_store::store_files::text_starts_with;

const DIGEST: &str = "sha256:e3b0c44298fc1c149afbf4c8996fb92427ae41e4649b934ca495991b7852b855";

fn observation(revision: &str) -> StrongSourceFileObservation {
    StrongSourceFileObservation {
        source_revision_id: SourceRevisionId::parse(revision).unwrap(),
        stable_file_id: "sfi_0123456789abcdef0123456789abcdef".to_string(),
        byte_size: 1,
        mtime_seconds: 1,
        mtime_nanoseconds: 0,
        ctime_seconds: 1,
        ctime_nanoseconds: 0,
        strongly_verified_at: UnixTimestamp::from_unix_seconds(1),
        next_strong_verification_at: UnixTimestamp::from_unix_seconds(2),
    }
}

fn previous(document: &str, revision: &str, state: &str) -> PreviousOccurrence {
    PreviousOccurrence {
        document_id: document.to_string(),
        source_revision_id: revision.to_string(),
        state: state.to_string(),
    }
}

fn version_row(languages: &str) -> SelectionVersionRow {
    SelectionVersionRow {
        source_revision_id: "rev-1".to_string(),
        source_content_hash: DIGEST.to_string(),
        source_byte_size: 42,
        normalized_text_hash: DIGEST.to_string(),
        parse_version: "parse-1".to_string(),
        schema_version: "schema-1".to_string(),
        language_set_json: languages.to_string(),
        page_count: Some(3),
    }
}

#[test]
fn strong_observations_must_name_the_committed_revision() {
    let revision = SourceRevisionId::parse("rev-1").unwrap();
    let same = observation("rev-1");
    let other = observation("rev-2");
    let refused = Err(MetaStoreError::InvalidValue("source_root_bound_import.observation"));
    assert_eq!(validate_observation_source(SourceRootBoundImportObservation::MetadataOnly, &revision), Ok(()));
    assert_eq!(validate_observation_source(SourceRootBoundImportObservation::Strong(&same), &revision), Ok(()));
    assert_eq!(validate_observation_source(SourceRootBoundImportObservation::Strong(&other), &revision), refused);
    assert_eq!(validate_read_failure_observation(SourceRootBoundImportObservation::MetadataOnly), Ok(()));
    assert_eq!(validate_read_failure_observation(SourceRootBoundImportObservation::Strong(&same)), refused);
    assert!(!SourceRootBoundImportCommitOutcome::nothing_scheduled().ocr_job_scheduled);
}

#[test]
fn occurrences_are_inserted_kept_or_replaced() {
    let document = DocumentId::parse("doc-1").unwrap();
    let revision = SourceRevisionId::parse("rev-1").unwrap();
    assert_eq!(occurrence_change(None, &document, &revision), OccurrenceChange::Inserted);
    let same = previous("doc-1", "rev-1", "present");
    assert_eq!(occurrence_change(Some(&same), &document, &revision), OccurrenceChange::Unchanged);
    let missing = previous("doc-1", "rev-1", "missing");
    assert_eq!(occurrence_change(Some(&missing), &document, &revision), OccurrenceChange::Replaced);
    let moved = previous("doc-0", "rev-0", "present");
    assert_eq!(occurrence_change(Some(&moved), &document, &revision), OccurrenceChange::Replaced);
    assert_eq!(displaced_document(Some(&moved), &document), Some("doc-0"));
    assert_eq!(displaced_document(Some(&same), &document), None);
    assert_eq!(displaced_document(None, &document), None);
}

#[test]
fn pdf_reprocess_jobs_are_bounded() {
    assert_eq!(validate_parser_contract("pdfium-v2"), Ok(()));
    let refused = Err(MetaStoreError::InvalidValue("pdf_reprocess_job.parser_contract"));
    assert_eq!(validate_parser_contract(""), refused);
    assert_eq!(validate_parser_contract(&"p".repeat(65)), refused);
    assert_eq!(validate_parser_contract(&"p".repeat(64)), Ok(()));
    assert_eq!(requeued_reprocess_state(MAX_REPROCESS_ATTEMPTS - 1), "queued");
    assert_eq!(requeued_reprocess_state(MAX_REPROCESS_ATTEMPTS), "cancelled");
    assert!(reprocess_attempt_available(0));
    assert!(!reprocess_attempt_available(MAX_REPROCESS_ATTEMPTS));
}

#[test]
fn selected_version_metadata_is_bounded_and_decoded() {
    match bound_selection_version(version_row("[\"en\",\"fr\"]")).unwrap() {
        BoundedSelectionVersion::Version(v) => {
            assert_eq!(v.language_set, vec!["en".to_string(), "fr".to_string()]);
            assert_eq!(v.page_count, Some(3));
            assert_eq!(v.source_byte_size, 42);
            assert_eq!(v.source_revision_id.as_str(), "rev-1");
        }
        other => panic!("unexpected {other:?}"),
    }
    assert_eq!(
        bound_selection_version(version_row("{\"en\":1}")),
        Err(MetaStoreError::InvalidValue("resume_version.language_set"))
    );
    let many = format!("[{}]", vec!["\"x\""; 65].join(","));
    assert_eq!(bound_selection_version(version_row(&many)), Ok(BoundedSelectionVersion::LimitExceeded));
    let long = format!("[\"{}\"]", "x".repeat(65));
    assert_eq!(bound_selection_version(version_row(&long)), Ok(BoundedSelectionVersion::LimitExceeded));
    let mut bad = version_row("[]");
    bad.page_count = Some(-1);
    assert_eq!(bound_selection_version(bad), Err(MetaStoreError::InvalidValue("resume_version.page_count")));
    let mut bad = version_row("[]");
    bad.normalized_text_hash = "sha256:".to_string();
    assert_eq!(
        bound_selection_version(bad),
        Err(MetaStoreError::InvalidValue("resume_version.normalized_text_hash"))
    );
    let mut label = version_row("[]");
    label.parse_version = "p".repeat(257);
    assert_eq!(bound_selection_version(label), Ok(BoundedSelectionVersion::LimitExceeded));
}

#[test]
fn decoded_language_sets_are_bounded_without_decoding() {
    assert_eq!(
        bound_decoded_selection_version(version_row("ignored"), None),
        Err(MetaStoreError::InvalidValue("resume_version.language_set"))
    );
    match bound_decoded_selection_version(version_row("ignored"), Some(vec!["de".to_string()])).unwrap() {
        BoundedSelectionVersion::Version(v) => assert_eq!(v.language_set, vec!["de".to_string()]),
        other => panic!("unexpected {other:?}"),
    }
    assert_eq!(
        bound_decoded_selection_version(version_row("ignored"), Some(vec!["x".repeat(65)])),
        Ok(BoundedSelectionVersion::LimitExceeded)
    );
}

#[test]
fn selected_document_and_mentions_are_bounded() {
    assert_eq!(document_lengths_within_bounds(10, 10, 10, 3), Ok(true));
    assert_eq!(document_lengths_within_bounds(131_073, 10, 10, 3), Ok(false));
    assert_eq!(document_lengths_within_bounds(10, 10, 4097, 3), Ok(false));
    assert_eq!(document_lengths_within_bounds(10, 10, 10, 257), Ok(false));
    assert_eq!(
        document_lengths_within_bounds(10, -1, 10, 3),
        Err(MetaStoreError::InvalidValue("document.metadata_length"))
    );
    assert_eq!(document_lengths_within_bounds(131_073, -1, 10, 3), Ok(false));
    assert!(mentions_within_bounds(false, 256));
    assert!(!mentions_within_bounds(false, 257));
    assert!(!mentions_within_bounds(true, 0));
    assert_eq!(parse_candidate_assignment(None), Ok(None));
    assert_eq!(parse_candidate_assignment(Some("cand-1")).unwrap().unwrap().as_str(), "cand-1");
    assert_eq!(
        parse_candidate_assignment(Some("bad id")),
        Err(MetaStoreError::InvalidValue("resume_version_candidate.candidate_id"))
    );
    assert!(text_starts_with("cand-1", "cand"));
}

#[test]
fn bound_imports_need_a_catch_up_task_and_ocr_triage() {
    let catch_up = ImportTaskPurpose::ConfiguredCatchUp;
    for mutation in [
        BoundImportMutationKind::Immutable(IngestStageKind::ClassifiedResume),
        BoundImportMutationKind::Immutable(IngestStageKind::SourceTriage),
        BoundImportMutationKind::OcrRequired(IngestStageKind::SourceTriage),
        BoundImportMutationKind::ExistingRevision,
        BoundImportMutationKind::ExistingRevisionMetadata,
        BoundImportMutationKind::ReadFailureWithoutRevision,
    ] {
        assert_eq!(check_bound_import_commit(catch_up, mutation), Ok(()));
        assert_eq!(
            check_bound_import_commit(ImportTaskPurpose::Other, mutation),
            Err(MetaStoreError::InvalidTransition)
        );
    }
    assert_eq!(
        check_bound_import_commit(catch_up, BoundImportMutationKind::OcrRequired(IngestStageKind::ClassifiedResume)),
        Err(MetaStoreError::InvalidValue("source_root_bound_import.ocr_stage"))
    );
    assert_eq!(
        check_bound_import_commit(
            ImportTaskPurpose::Other,
            BoundImportMutationKind::OcrRequired(IngestStageKind::ClassifiedResume)
        ),
        Err(MetaStoreError::InvalidTransition)
    );
}
