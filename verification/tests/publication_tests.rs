use meta_store::contract::CLASSIFIER_EPOCH;
use meta_store::descriptor_records::{
    check_current_descriptor_fingerprint, descriptor_record_from_row, validate_descriptor_record,
    DescriptorContract, DescriptorRow,
};
use meta_store::digest::ContentDigest;
use meta_store::error::{MetaStoreError, SearchPublicationFailure};
use meta_store::fingerprint::search_publication_fingerprint;
use meta_store::ids::UnixTimestamp;
use meta_store::projection_digest::SearchProjectionDigest;
use meta_store::publication_model::{
    validate_prune_policy, EnabledVectorSnapshotDescriptor, FullTextSnapshotDescriptor,
    SearchPublicationDraft, SearchPublicationPrunePolicy, SearchPublicationRecord,
    SearchPublicationState, SearchPublicationValidation, VectorSnapshotDescriptor,
    VectorSnapshotMode,
};
use meta_store::publication_row::{read_publication, PublicationRow};
use meta_store::publication_validation::{
    empty_projection_digest_value, is_valid_generation, is_valid_model_id, validate_descriptors,
    validate_draft, vector_mode_storage,
};

const PROJECTION: &str = "sha256:b7cee50607cab1a0a8136c74f344e47686425274dbc71b9db412204d2fc238cc";
const CONTENT: &str = "sha256:ed7002b439e9ac845f22357d822bac1444730fbdb6016d3ec9432297b9ec9f73";
const FINGERPRINT: &str = "sha256:ce2cdf78a24f3b7aab394b4ffa0221151bbf66445326258c2a9a6c566b2aeecf";

fn projection() -> SearchProjectionDigest {
    SearchProjectionDigest::parse(PROJECTION).unwrap()
}

fn fulltext() -> FullTextSnapshotDescriptor {
    FullTextSnapshotDescriptor::new("gen-1".to_string(), 1, projection(), ContentDigest::parse(CONTENT).unwrap())
}

fn disabled_vector() -> VectorSnapshotDescriptor {
    VectorSnapshotDescriptor::disabled(
        "gen-1".to_string(),
        1,
        projection(),
        empty_projection_digest_value(),
        ContentDigest::parse(CONTENT).unwrap(),
    )
}

fn draft(generation: &str, base: Option<&str>, epoch: &str) -> SearchPublicationDraft {
    SearchPublicationDraft {
        generation: generation.to_string(),
        base_generation: base.map(str::to_string),
        expected_visible_epoch: 0,
        classifier_epoch: epoch.to_string(),
        projection_digest: projection(),
        now: UnixTimestamp::from_unix_seconds(1),
    }
}

fn publication_row() -> PublicationRow {
    PublicationRow {
        generation: "gen-1".to_string(),
        base_generation: None,
        expected_visible_epoch: 0,
        classifier_epoch: CLASSIFIER_EPOCH.to_string(),
        projection_digest: PROJECTION.to_string(),
        publication_fingerprint: Some(FINGERPRINT.to_string()),
        state: "ready".to_string(),
        fulltext_generation: Some("gen-1".to_string()),
        fulltext_manifest_schema: Some("fulltext.snapshot.v3".to_string()),
        fulltext_index_schema: Some("tantivy.fulltext.v3".to_string()),
        fulltext_document_count: Some(1),
        fulltext_projection_digest: Some(PROJECTION.to_string()),
        fulltext_logical_content_digest: Some(CONTENT.to_string()),
        vector_generation: Some("gen-1".to_string()),
        vector_manifest_schema: Some("vector.snapshot.v4".to_string()),
        vector_index_schema: Some("hnsw-vector.v4".to_string()),
        vector_mode: Some("disabled".to_string()),
        vector_model_id: None,
        vector_dimension: None,
        vector_projection_count: Some(1),
        vector_coverage_digest: Some(empty_projection_digest_value().as_str().to_string()),
        vector_count: Some(0),
        vector_document_count: Some(0),
        vector_resume_version_count: Some(0),
        vector_projection_digest: Some(PROJECTION.to_string()),
        vector_logical_content_digest: Some(CONTENT.to_string()),
        created_at_seconds: 10,
        updated_at_seconds: 11,
    }
}

#[test]
fn publication_fingerprint_hashes_the_framed_descriptors() {
    let fingerprint =
        search_publication_fingerprint(CLASSIFIER_EPOCH, &projection(), &fulltext(), &disabled_vector());
    assert_eq!(fingerprint.as_str(), FINGERPRINT);
    let other = search_publication_fingerprint("resume-classifier.v0", &projection(), &fulltext(), &disabled_vector());
    assert_ne!(other.as_str(), FINGERPRINT);
}

#[test]
fn drafts_need_valid_distinct_generations_and_the_current_epoch() {
    assert_eq!(validate_draft(&draft("gen-2", Some("gen-1"), CLASSIFIER_EPOCH)), Ok(()));
    assert_eq!(validate_draft(&draft("gen-2", None, CLASSIFIER_EPOCH)), Ok(()));
    let generation = Err(MetaStoreError::SearchPublication(SearchPublicationFailure::InvalidGeneration));
    assert_eq!(validate_draft(&draft("gen-2", Some("gen-2"), CLASSIFIER_EPOCH)), generation);
    assert_eq!(validate_draft(&draft(".hidden", None, CLASSIFIER_EPOCH)), generation);
    assert_eq!(validate_draft(&draft("gen-2", Some("a/b"), CLASSIFIER_EPOCH)), generation);
    assert_eq!(
        validate_draft(&draft("gen-2", None, "resume-classifier.v0")),
        Err(MetaStoreError::SearchPublication(SearchPublicationFailure::InvalidClassifierEpoch))
    );
}

#[test]
fn generation_and_model_names() {
    assert!(is_valid_generation("gen_1.2-3"));
    assert!(!is_valid_generation(""));
    assert!(!is_valid_generation("."));
    assert!(!is_valid_generation("a b"));
    assert!(is_valid_generation(&"g".repeat(128)));
    assert!(!is_valid_generation(&"g".repeat(129)));
    assert!(is_valid_model_id("bge small/v1.5"));
    assert!(!is_valid_model_id(""));
    assert!(!is_valid_model_id(" model"));
    assert!(!is_valid_model_id("model\n"));
    assert!(!is_valid_model_id("mo\u{7}del"));
    assert!(is_valid_model_id(&"é".repeat(128)));
    assert!(!is_valid_model_id(&"é".repeat(129)));
}

#[test]
fn descriptors_must_describe_one_publication() {
    let ft = fulltext();
    let v = disabled_vector();
    let ok = SearchPublicationValidation {
        generation: "gen-1",
        fulltext: &ft,
        vector: &v,
        now: UnixTimestamp::from_unix_seconds(1),
    };
    assert_eq!(validate_descriptors(&ok), Ok(()));
    let mismatch = SearchPublicationValidation { generation: "gen-2", ..ok };
    assert_eq!(
        validate_descriptors(&mismatch),
        Err(MetaStoreError::SearchPublication(SearchPublicationFailure::DescriptorMismatch))
    );
    let enabled = VectorSnapshotDescriptor::enabled(EnabledVectorSnapshotDescriptor {
        generation: "gen-1".to_string(),
        model_id: "model-a".to_string(),
        dimension: 0,
        projection_count: 1,
        projection_digest: projection(),
        coverage_digest: projection(),
        vector_count: 1,
        document_count: 1,
        resume_version_count: 1,
        logical_content_digest: ContentDigest::parse(CONTENT).unwrap(),
    });
    let bad = SearchPublicationValidation { vector: &enabled, ..ok };
    assert_eq!(
        validate_descriptors(&bad),
        Err(MetaStoreError::SearchPublication(SearchPublicationFailure::InvalidDescriptor))
    );
    assert_eq!(vector_mode_storage(enabled.mode()), ("enabled", Some("model-a"), Some(0)));
    assert_eq!(vector_mode_storage(&VectorSnapshotMode::Disabled), ("disabled", None, None));
}

#[test]
fn a_stored_ready_publication_reads_back() {
    let record = read_publication(&publication_row()).unwrap();
    assert_eq!(record.generation, "gen-1");
    assert_eq!(record.state, SearchPublicationState::Ready);
    assert_eq!(record.fulltext, Some(fulltext()));
    assert_eq!(record.vector, Some(disabled_vector()));
    assert_eq!(record.publication_fingerprint.as_ref().map(|d| d.as_str()), Some(FINGERPRINT));
    assert_eq!(record.updated_at.as_unix_seconds(), 11);
}

#[test]
fn stored_publications_with_broken_descriptors_are_refused() {
    let invalid = Err(MetaStoreError::SearchPublication(SearchPublicationFailure::InvalidPersistedState));
    let mut row = publication_row();
    row.publication_fingerprint = Some(CONTENT.to_string());
    assert_eq!(read_publication(&row), invalid);
    let mut row = publication_row();
    row.state = "preparing".to_string();
    assert_eq!(read_publication(&row), invalid);
    let mut row = publication_row();
    row.fulltext_manifest_schema = Some("fulltext.snapshot.v2".to_string());
    assert_eq!(read_publication(&row), invalid);
    let mut row = publication_row();
    row.state = "live".to_string();
    assert_eq!(read_publication(&row), invalid);
    let mut row = publication_row();
    row.expected_visible_epoch = -1;
    assert_eq!(read_publication(&row), invalid);
    let mut row = publication_row();
    row.fulltext_document_count = None;
    assert!(read_publication(&row).is_err());
}

#[test]
fn a_preparing_publication_has_no_descriptors() {
    let mut row = publication_row();
    row.state = "preparing".to_string();
    row.publication_fingerprint = None;
    row.fulltext_generation = None;
    row.vector_generation = None;
    let record: SearchPublicationRecord = read_publication(&row).unwrap();
    assert_eq!(record.fulltext, None);
    assert_eq!(record.vector, None);
}

#[test]
fn current_descriptor_records_are_validated_and_fingerprinted() {
    let row = DescriptorRow {
        generation: "gen-1".to_string(),
        expected_visible_epoch: 0,
        classifier_epoch: CLASSIFIER_EPOCH.to_string(),
        projection_digest: PROJECTION.to_string(),
        publication_fingerprint: Some(FINGERPRINT.to_string()),
        state: "ready".to_string(),
        fulltext_generation: Some("gen-1".to_string()),
        fulltext_manifest_schema: Some("fulltext.snapshot.v3".to_string()),
        fulltext_index_schema: Some("tantivy.fulltext.v3".to_string()),
        fulltext_document_count: Some(1),
        fulltext_projection_digest: Some(PROJECTION.to_string()),
        fulltext_logical_content_digest: Some(CONTENT.to_string()),
        vector_generation: Some("gen-1".to_string()),
        vector_manifest_schema: Some("vector.snapshot.v4".to_string()),
        vector_index_schema: Some("hnsw-vector.v4".to_string()),
        vector_mode: Some("disabled".to_string()),
        vector_model_id: None,
        vector_dimension: None,
        vector_projection_count: Some(1),
        vector_coverage_digest: Some(empty_projection_digest_value().as_str().to_string()),
        vector_count: Some(0),
        vector_document_count: Some(0),
        vector_resume_version_count: Some(0),
        vector_projection_digest: Some(PROJECTION.to_string()),
        vector_logical_content_digest: Some(CONTENT.to_string()),
    };
    let record = descriptor_record_from_row(&row).unwrap();
    assert_eq!(record.contract, DescriptorContract::Current);
    assert_eq!(validate_descriptor_record(&record), Ok(()));
    let publication = read_publication(&publication_row()).unwrap();
    assert_eq!(check_current_descriptor_fingerprint(&record, Some(&publication)), Ok(()));
    assert_eq!(
        check_current_descriptor_fingerprint(&record, None),
        Err(MetaStoreError::StorageInvariant)
    );
    let mut mixed = row;
    mixed.vector_manifest_schema = Some("vector.snapshot.v3".to_string());
    assert_eq!(descriptor_record_from_row(&mixed), Err(MetaStoreError::StorageInvariant));
}

#[test]
fn prune_policies_stay_within_bounds() {
    let policy = |retain_ready, max_delete| SearchPublicationPrunePolicy {
        retain_ready,
        abandoned_updated_before: UnixTimestamp::from_unix_seconds(0),
        max_delete,
    };
    assert_eq!(validate_prune_policy(&policy(1, 256)), Ok(()));
    assert!(validate_prune_policy(&policy(0, 1)).is_err());
    assert!(validate_prune_policy(&policy(1, 257)).is_err());
}
