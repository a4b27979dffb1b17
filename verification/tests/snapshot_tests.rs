use meta_store::digest::ContentDigest;
use meta_store::error::MetaStoreError;
use meta_store::ids::UnixTimestamp;
use meta_store::projection_digest::SearchProjectionDigest;
use meta_store::publication_model::{
    FullTextSnapshotDescriptor, SearchPublicationRecord, SearchPublicationState,
};
use meta_store::snapshot::{
    audit_active_projection, projection_from_row, ready_head, ready_head_generation,
    retention_generations, search_repair_reason_from_storage, validate_projection_snapshot,
    SearchMetadataOpenError, SearchMetadataUnavailable, SearchRepairReason,
};

fn pairs(items: &[(&str, &str)]) -> Vec<(String, String)> {
    items.iter().map(|(a, b)| (a.to_string(), b.to_string())).collect()
}

fn ready_record(epoch: u64, projection: &[(String, String)]) -> SearchPublicationRecord {
    let digest = SearchProjectionDigest::from_text_pairs(projection).unwrap();
    SearchPublicationRecord {
        generation: "gen-1".to_string(),
        base_generation: None,
        expected_visible_epoch: epoch,
        classifier_epoch: "resume-classifier.v1".to_string(),
        projection_digest: digest.clone(),
        publication_fingerprint: None,
        state: SearchPublicationState::Ready,
        fulltext: Some(FullTextSnapshotDescriptor::new(
            "gen-1".to_string(),
            projection.len() as u64,
            digest,
            ContentDigest::from_bytes(b"content"),
        )),
        vector: None,
        created_at: UnixTimestamp::from_unix_seconds(1),
        updated_at: UnixTimestamp::from_unix_seconds(2),
    }
}

#[test]
fn only_a_ready_head_opens() {
    assert_eq!(ready_head_generation("ready", Some("gen-1".to_string()), None), Ok("gen-1".to_string()));
    let invariant = Err(SearchMetadataOpenError::Store(MetaStoreError::StorageInvariant));
    assert_eq!(ready_head_generation("ready", None, None), invariant);
    assert_eq!(ready_head_generation("ready", Some("g".to_string()), Some("runtime_invariant")), invariant);
    assert_eq!(
        ready_head_generation("repairing", None, Some("migration_rebuild")),
        Err(SearchMetadataOpenError::Unavailable(SearchMetadataUnavailable::Repairing(
            SearchRepairReason::MigrationRebuild
        )))
    );
    assert_eq!(
        ready_head_generation("repair_blocked", Some("g".to_string()), Some("artifact_unavailable")),
        Err(SearchMetadataOpenError::Unavailable(SearchMetadataUnavailable::RepairBlocked(
            SearchRepairReason::ArtifactUnavailable
        )))
    );
    assert_eq!(ready_head_generation("repairing", None, None), invariant);
    assert_eq!(ready_head_generation("repairing", None, Some("unknown")), invariant);
    assert_eq!(ready_head_generation("paused", None, Some("runtime_invariant")), invariant);
}

#[test]
fn the_head_epoch_is_one_past_its_publication() {
    let projection = pairs(&[("doc-1", "ver-1")]);
    let head = ready_head("gen-1".to_string(), 5, Some(ready_record(4, &projection))).unwrap();
    assert_eq!(head.visible_epoch, 5);
    assert_eq!(head.generation, "gen-1");
    let invariant = Err(SearchMetadataOpenError::Store(MetaStoreError::StorageInvariant));
    assert_eq!(ready_head("gen-1".to_string(), 4, Some(ready_record(4, &projection))), invariant);
    assert_eq!(ready_head("gen-1".to_string(), -1, Some(ready_record(4, &projection))), invariant);
    assert_eq!(ready_head("gen-1".to_string(), 5, None), invariant);
    let mut validated = ready_record(4, &projection);
    validated.state = SearchPublicationState::Validated;
    assert_eq!(ready_head("gen-1".to_string(), 5, Some(validated)), invariant);
}

#[test]
fn the_active_projection_is_audited_against_the_head() {
    let projection = pairs(&[("doc-1", "ver-1"), ("doc-2", "ver-2")]);
    let head = ready_head("gen-1".to_string(), 1, Some(ready_record(0, &projection))).unwrap();
    let active = audit_active_projection(&head, 0, 0, &projection).unwrap();
    assert_eq!(active.len(), 2);
    assert_eq!(active[0].document_id.as_str(), "doc-1");
    assert_eq!(active[1].resume_version_id.as_str(), "ver-2");
    assert_eq!(audit_active_projection(&head, 1, 0, &projection), Err(MetaStoreError::StorageInvariant));
    assert_eq!(audit_active_projection(&head, 0, 1, &projection), Err(MetaStoreError::StorageInvariant));
    assert_eq!(
        audit_active_projection(&head, 0, 0, &pairs(&[("doc-1", "ver-1")])),
        Err(MetaStoreError::StorageInvariant)
    );
    assert_eq!(
        audit_active_projection(&head, 0, 0, &pairs(&[("doc-1", "ver-1"), ("doc-2", "ver-3")])),
        Err(MetaStoreError::StorageInvariant)
    );
}

#[test]
fn projection_snapshots_validate_count_and_digest() {
    let projection = pairs(&[("doc-1", "ver-1")]);
    let digest = SearchProjectionDigest::from_text_pairs(&projection).unwrap();
    assert_eq!(validate_projection_snapshot(0, 0, &projection, 1, &digest), Ok(()));
    assert_eq!(validate_projection_snapshot(0, 0, &projection, 2, &digest), Err(MetaStoreError::StorageInvariant));
    assert_eq!(validate_projection_snapshot(0, 1, &projection, 1, &digest), Err(MetaStoreError::StorageInvariant));
    let other = SearchProjectionDigest::from_pairs(&[]).unwrap();
    assert_eq!(validate_projection_snapshot(0, 0, &projection, 1, &other), Err(MetaStoreError::StorageInvariant));
}

#[test]
fn projection_rows_name_the_bad_column() {
    assert!(projection_from_row("doc-1", "ver-1").is_ok());
    assert_eq!(
        projection_from_row("doc 1", "ver 1"),
        Err(MetaStoreError::InvalidValue("active_search_projection.document_id"))
    );
    assert_eq!(
        projection_from_row("doc-1", ""),
        Err(MetaStoreError::InvalidValue("active_search_projection.resume_version_id"))
    );
}

#[test]
fn retention_keeps_each_generation_once() {
    let kept = retention_generations(
        Some("gen-3".to_string()),
        vec!["gen-4".to_string(), "gen-3".to_string()],
        vec!["gen-2".to_string(), "gen-3".to_string(), "gen-2".to_string()],
    );
    assert_eq!(kept, vec!["gen-2".to_string(), "gen-3".to_string(), "gen-4".to_string()]);
    let kept = retention_generations(
        Some("b".to_string()),
        vec!["B".to_string(), "ab".to_string()],
        vec!["a".to_string(), "é".to_string(), "z".to_string()],
    );
    assert_eq!(
        kept,
        vec![
            "B".to_string(),
            "a".to_string(),
            "ab".to_string(),
            "b".to_string(),
            "z".to_string(),
            "é".to_string()
        ]
    );
    assert!(retention_generations(None, Vec::new(), Vec::new()).is_empty());
}

#[test]
fn repair_reason_labels_round_trip() {
    for (label, reason) in [
        ("migration_rebuild", SearchRepairReason::MigrationRebuild),
        ("artifact_unavailable", SearchRepairReason::ArtifactUnavailable),
        ("source_unavailable", SearchRepairReason::SourceUnavailable),
        ("runtime_invariant", SearchRepairReason::RuntimeInvariant),
    ] {
        assert_eq!(search_repair_reason_from_storage(label), Some(reason));
        assert_eq!(reason.as_str(), label);
    }
    assert_eq!(search_repair_reason_from_storage("Runtime_Invariant"), None);
}
