use meta_store::canonical::{push_framed, push_framed_u32, push_framed_u64, push_u64_le};
use meta_store::contract::{ContractDelta, ContractTransitionStrategy, ImportProcessingContract, CLASSIFIER_EPOCH};
use meta_store::contract_migration::{find_head_publication, plan_active_head, RepairContextRow};
use meta_store::descriptor_records::{descriptor_record_from_row, DescriptorContract, DescriptorRow};
use meta_store::digest::{digest_text_of_hash, ContentDigest};
use meta_store::error::{publication_error, MetaStoreError, SearchPublicationFailure};
use meta_store::ids::UnixTimestamp;
use meta_store::lifecycle::{commit_applies, validation_fingerprint};
use meta_store::ocr_commit::check_ocr_classifier_epoch;
use meta_store::projection_digest::SearchProjectionDigest;
use meta_store::publication_model::{
    FullTextSnapshotDescriptor, SearchPublicationRecord, SearchPublicationState,
    SearchPublicationValidation, VectorSnapshotDescriptor,
};
use meta_store::publication_row::{read_publication, PublicationRow};
use meta_store::publication_validation::empty_projection_digest_value;
use meta_store::session::ActiveAttemptSlot;
use meta_store::writer_transition::{observe_writer_contract_transition, WriterContractTransitionOutcome};

const PROJECTION: &str = "sha256:b7cee50607cab1a0a8136c74f344e47686425274dbc71b9db412204d2fc238cc";
const CONTENT: &str = "sha256:ed7002b439e9ac845f22357d822bac1444730fbdb6016d3ec9432297b9ec9f73";
const FINGERPRINT: &str = "sha256:ce2cdf78a24f3b7aab394b4ffa0221151bbf66445326258c2a9a6c566b2aeecf";

fn record(state: SearchPublicationState, base: Option<&str>, epoch: u64) -> SearchPublicationRecord {
    SearchPublicationRecord {
        generation: "gen-1".to_string(),
        base_generation: base.map(str::to_string),
        expected_visible_epoch: epoch,
        classifier_epoch: CLASSIFIER_EPOCH.to_string(),
        projection_digest: SearchProjectionDigest::parse(PROJECTION).unwrap(),
        publication_fingerprint: None,
        state,
        fulltext: None,
        vector: None,
        created_at: UnixTimestamp::from_unix_seconds(1),
        updated_at: UnixTimestamp::from_unix_seconds(1),
    }
}

fn descriptor_row(state: &str, manifest: &str, index: &str, vmanifest: &str, vindex: &str) -> DescriptorRow {
    DescriptorRow {
        generation: "gen-1".to_string(),
        expected_visible_epoch: 4,
        classifier_epoch: CLASSIFIER_EPOCH.to_string(),
        projection_digest: PROJECTION.to_string(),
        publication_fingerprint: Some(FINGERPRINT.to_string()),
        state: state.to_string(),
        fulltext_generation: Some("gen-1".to_string()),
        fulltext_manifest_schema: Some(manifest.to_string()),
        fulltext_index_schema: Some(index.to_string()),
        fulltext_document_count: Some(1),
        fulltext_projection_digest: Some(PROJECTION.to_string()),
        fulltext_logical_content_digest: Some(CONTENT.to_string()),
        vector_generation: Some("gen-1".to_string()),
        vector_manifest_schema: Some(vmanifest.to_string()),
        vector_index_schema: Some(vindex.to_string()),
        vector_mode: Some("disabled".to_string()),
        vector_model_id: None,
        vector_dimension: None,
        vector_projection_count: Some(1),
        vector_coverage_digest: Some(empty_projection_digest_value().as_str().to_string()),
        vector_count: Some(0),
        vector_document_count: Some(0),
        vector_resume_version_count: Some(0),
        vector_projection_digest: Some(PROJECTION.to_string()),
        vector_logical_content_digest: Some(CONTENT.to_string()),
    }
}

#[test]
fn canonical_parts_are_length_framed_little_endian() {
    let mut target = Vec::new();
    push_u64_le(&mut target, 0x0102);
    assert_eq!(target, vec![2, 1, 0, 0, 0, 0, 0, 0]);
    let mut target = vec![9];
    push_framed(&mut target, b"ab");
    assert_eq!(target, vec![9, 2, 0, 0, 0, 0, 0, 0, 0, b'a', b'b']);
    let mut target = Vec::new();
    push_framed_u64(&mut target, 1);
    assert_eq!(target, vec![8, 0, 0, 0, 0, 0, 0, 0, 1, 0, 0, 0, 0, 0, 0, 0]);
    let mut target = Vec::new();
    push_framed_u32(&mut target, 384);
    assert_eq!(target, vec![4, 0, 0, 0, 0, 0, 0, 0, 128, 1, 0, 0]);
}

#[test]
fn digest_text_of_a_hash_is_prefixed_lowercase_hex() {
    assert_eq!(digest_text_of_hash(&[0x00, 0xab, 0x10]), b"sha256:00ab10".to_vec());
    assert_eq!(digest_text_of_hash(&[]), b"sha256:".to_vec());
}

#[test]
fn a_validated_publication_reads_back_with_its_descriptors() {
    let row = PublicationRow {
        generation: "gen-1".to_string(),
        base_generation: Some("gen-0".to_string()),
        expected_visible_epoch: 4,
        classifier_epoch: CLASSIFIER_EPOCH.to_string(),
        projection_digest: PROJECTION.to_string(),
        publication_fingerprint: Some(FINGERPRINT.to_string()),
        state: "validated".to_string(),
        fulltext_generation: Some("gen-1".to_string()),
        fulltext_manifest_schema: Some("fulltext.snapshot.v3".to_string()),
        fulltext_index_schema: Some("tantivy.fulltext.v3".to_string()),
        fulltext_document_count: Some(1),
        fulltext_projection_digest: Some(PROJECTION.to_string()),
        fulltext_logical_content_digest: Some(CONTENT.to_string()),
        vector_generation: Some("gen-1".to_string()),
        vector_manifest_schema: Some("vector.snapshot.v4".to_string()),
        vector_index_schema: Some("hnsw-vector.v4".to_string()),
        vector_mode: Some("disabled".to_string()),
        vector_model_id: None,
        vector_dimension: None,
        vector_projection_count: Some(1),
        vector_coverage_digest: Some(empty_projection_digest_value().as_str().to_string()),
        vector_count: Some(0),
        vector_document_count: Some(0),
        vector_resume_version_count: Some(0),
        vector_projection_digest: Some(PROJECTION.to_string()),
        vector_logical_content_digest: Some(CONTENT.to_string()),
        created_at_seconds: 1,
        updated_at_seconds: 2,
    };
    let record = read_publication(&row).unwrap();
    assert_eq!(record.state, SearchPublicationState::Validated);
    let digest = SearchProjectionDigest::parse(PROJECTION).unwrap();
    let content = ContentDigest::parse(CONTENT).unwrap();
    assert_eq!(
        record.fulltext,
        Some(FullTextSnapshotDescriptor::new("gen-1".to_string(), 1, digest.clone(), content.clone()))
    );
    assert_eq!(
        record.vector,
        Some(VectorSnapshotDescriptor::disabled(
            "gen-1".to_string(),
            1,
            digest,
            empty_projection_digest_value(),
            content,
        ))
    );
}

#[test]
fn validation_fingerprints_only_a_preparing_publication() {
    let digest = SearchProjectionDigest::parse(PROJECTION).unwrap();
    let content = ContentDigest::parse(CONTENT).unwrap();
    let ft = FullTextSnapshotDescriptor::new("gen-1".to_string(), 1, digest.clone(), content.clone());
    let v = VectorSnapshotDescriptor::disabled("gen-1".to_string(), 1, digest, empty_projection_digest_value(), content);
    let validation = SearchPublicationValidation {
        generation: "gen-1",
        fulltext: &ft,
        vector: &v,
        now: UnixTimestamp::from_unix_seconds(3),
    };
    let preparing = record(SearchPublicationState::Preparing, None, 0);
    assert_eq!(validation_fingerprint(Some(&preparing), &validation).unwrap().as_str(), FINGERPRINT);
    let invalid = Err(MetaStoreError::SearchPublication(SearchPublicationFailure::InvalidState));
    assert_eq!(validation_fingerprint(None, &validation), invalid);
    let validated = record(SearchPublicationState::Validated, None, 0);
    assert_eq!(validation_fingerprint(Some(&validated), &validation), invalid);
}

#[test]
fn commits_apply_only_on_the_head_they_were_based_on() {
    let p = record(SearchPublicationState::Validated, Some("gen-0"), 3);
    assert_eq!(commit_applies(&p, true, Some("gen-0"), 3), Ok(true));
    assert_eq!(commit_applies(&p, false, Some("gen-0"), 3), Ok(false));
    assert_eq!(commit_applies(&p, true, Some("gen-9"), 3), Ok(false));
    assert_eq!(commit_applies(&p, true, Some("gen-0"), 4), Ok(false));
    assert_eq!(commit_applies(&p, true, None, 3), Ok(false));
    assert_eq!(
        commit_applies(&p, true, Some("gen-0"), -1),
        Err(MetaStoreError::SearchPublication(SearchPublicationFailure::InvalidPersistedState))
    );
}

#[test]
fn contract_deltas_name_every_changed_component() {
    let a = ImportProcessingContract::new("parser-1", "ocr-1", "schema-1", CLASSIFIER_EPOCH).unwrap();
    let b = ImportProcessingContract::new("parser-1", "ocr-2", "schema-2", CLASSIFIER_EPOCH).unwrap();
    let delta = ContractDelta::between(Some(&a), &b);
    assert_eq!(delta.strategy, ContractTransitionStrategy::OcrRequeue);
    assert!(!delta.primary_parser_changed);
    assert!(delta.ocr_engine_changed);
    assert!(delta.normalization_schema_changed);
    assert!(!delta.classifier_epoch_changed);
    let c = ImportProcessingContract::new("parser-1", "ocr-1", "schema-1", "resume-classifier.v2").unwrap();
    assert_eq!(
        ContractDelta::between(Some(&a), &c).strategy,
        ContractTransitionStrategy::ClassifierReclassify
    );
    let d = ImportProcessingContract::new("parser-1", "ocr-1", "schema-2", CLASSIFIER_EPOCH).unwrap();
    assert_eq!(ContractDelta::between(Some(&a), &d).strategy, ContractTransitionStrategy::DerivedRebuild);
    let none = ContractDelta::between(None, &a);
    assert_eq!(none.strategy, ContractTransitionStrategy::DerivedRebuild);
    assert!(none.primary_parser_changed && none.classifier_epoch_changed);
}

#[test]
fn the_active_head_is_planned_through_the_contract_migration() {
    let current = descriptor_record_from_row(&descriptor_row(
        "ready",
        "fulltext.snapshot.v3",
        "tantivy.fulltext.v3",
        "vector.snapshot.v4",
        "hnsw-vector.v4",
    ))
    .unwrap();
    assert_eq!(current.contract, DescriptorContract::Current);
    let plan = plan_active_head("ready", None, 5, &current).unwrap();
    assert_eq!(plan.expected_documents, 1);
    assert!(plan.repair_context.is_none());
    assert!(!plan.demote_ready_head);
    let repairing = plan_active_head("repairing", Some("artifact_unavailable"), 5, &current).unwrap();
    let context: RepairContextRow = repairing.repair_context.unwrap();
    assert_eq!(context.generation, "gen-1");
    assert_eq!(context.publication_fingerprint, FINGERPRINT);
    assert_eq!(context.visible_epoch, 5);
    assert_eq!(context.projection_count, 1);
    assert_eq!(context.vector_mode.as_deref(), Some("disabled"));
    assert_eq!(plan_active_head("ready", None, 6, &current), Err(MetaStoreError::StorageInvariant));
    assert_eq!(plan_active_head("repairing", Some("migration_rebuild"), 5, &current), Err(MetaStoreError::StorageInvariant));
    let legacy = descriptor_record_from_row(&descriptor_row(
        "ready",
        "fulltext.snapshot.v2",
        "tantivy.fulltext.v2",
        "vector.snapshot.v3",
        "hnsw-vector.v3",
    ))
    .unwrap();
    let plan = plan_active_head("ready", None, 5, &legacy).unwrap();
    assert!(plan.demote_ready_head);
    assert!(plan.repair_context.is_some());
    let records = vec![current.clone(), legacy];
    assert_eq!(find_head_publication(&records, "gen-1"), Ok(&records[0]));
    assert_eq!(find_head_publication(&records, "gen-2"), Err(MetaStoreError::StorageInvariant));
}

#[test]
fn a_session_forgets_only_its_own_attempt() {
    let a = ContentDigest::from_bytes(b"attempt-a");
    let b = ContentDigest::from_bytes(b"attempt-b");
    let mut slot = ActiveAttemptSlot::new();
    assert!(slot.active().is_none());
    slot.set(a.clone());
    slot.clear_if(&b);
    assert_eq!(slot.active(), Some(&a));
    slot.clear_if(&a);
    assert!(slot.active().is_none());
}

#[test]
fn ocr_publications_need_the_classifier_epoch_of_their_classification() {
    assert_eq!(check_ocr_classifier_epoch(CLASSIFIER_EPOCH, CLASSIFIER_EPOCH), Ok(()));
    assert_eq!(
        check_ocr_classifier_epoch(CLASSIFIER_EPOCH, "resume-classifier.v0"),
        Err(publication_error(SearchPublicationFailure::ExactClassificationMissing))
    );
    assert_eq!(
        MetaStoreError::SearchPublication(SearchPublicationFailure::InvalidState).search_publication_failure(),
        Some(SearchPublicationFailure::InvalidState)
    );
    assert_eq!(MetaStoreError::StorageInvariant.search_publication_failure(), None);
}

#[test]
fn observed_deltas_name_every_changed_component() {
    let a = ImportProcessingContract::new("parser-1", "ocr-1", "schema-1", CLASSIFIER_EPOCH).unwrap();
    let b = ImportProcessingContract::new("parser-2", "ocr-1", "schema-2", CLASSIFIER_EPOCH).unwrap();
    let (delta, outcome) = observe_writer_contract_transition(Some(&a), &b, 0);
    assert_eq!(delta, ContractDelta::between(Some(&a), &b));
    assert_eq!(delta.strategy, ContractTransitionStrategy::PdfRootRescan);
    assert!(delta.primary_parser_changed);
    assert!(!delta.ocr_engine_changed);
    assert!(delta.normalization_schema_changed);
    assert!(!delta.classifier_epoch_changed);
    assert_eq!(outcome, WriterContractTransitionOutcome::TransitionRequired);
    let (first, _) = observe_writer_contract_transition(None, &a, 2);
    assert!(first.primary_parser_changed && first.ocr_engine_changed);
    assert!(first.normalization_schema_changed && first.classifier_epoch_changed);
}
