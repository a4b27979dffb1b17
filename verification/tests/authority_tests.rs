use meta_store::authority::{
    artifact_authority, attempt_count_from, begin_authority_route, begin_expected_epoch,
    commit_authority_check, migration_authority, migration_barrier_parts, parse_authority,
    parse_digest, ArtifactRepairKey, BeginAuthorityRoute, CommitAuthorityCheck,
    PersistedAuthorityRow, PublicationAuthority,
};
use meta_store::digest::ContentDigest;
use meta_store::error::{MetaStoreError, SearchPublicationFailure};

fn digest(seed: &[u8]) -> ContentDigest {
    ContentDigest::from_bytes(seed)
}

fn row_of(authority: &PublicationAuthority) -> PersistedAuthorityRow {
    let s = authority.storage().unwrap();
    PersistedAuthorityRow {
        kind: s.kind.to_string(),
        contract_id: s.contract_id.map(str::to_string),
        barrier_digest: s.barrier_digest.map(str::to_string),
        repair_generation: s.repair_generation.map(str::to_string),
        repair_fingerprint: s.repair_fingerprint.map(str::to_string),
        repair_visible_epoch: s.repair_visible_epoch,
        attempt_id: s.attempt_id.map(str::to_string),
        attempt_count: s.attempt_count,
    }
}

fn migration() -> PublicationAuthority {
    let (contract_id, barrier) =
        migration_barrier_parts("contract-1", digest(b"barrier").as_str()).unwrap();
    migration_authority(contract_id, barrier, digest(b"attempt").as_str(), 2).unwrap()
}

fn repair() -> PublicationAuthority {
    artifact_authority(
        "gen-1".to_string(),
        digest(b"fingerprint").as_str(),
        7,
        digest(b"attempt").as_str(),
        1,
    )
    .unwrap()
}

#[test]
fn stored_authorities_read_back_unchanged() {
    for authority in [PublicationAuthority::CurrentHead, migration(), repair()] {
        let row = row_of(&authority);
        assert_eq!(parse_authority(row), Ok(authority));
    }
}

#[test]
fn authority_storage_names_only_the_columns_of_its_kind() {
    let s = PublicationAuthority::CurrentHead.storage().unwrap();
    assert_eq!(s.kind, "current_head");
    assert!(s.contract_id.is_none() && s.attempt_id.is_none() && s.attempt_count.is_none());
    let authority = repair();
    let s = authority.storage().unwrap();
    assert_eq!(s.kind, "artifact_repair");
    assert_eq!(s.repair_generation, Some("gen-1"));
    assert_eq!(s.repair_visible_epoch, Some(7));
    assert!(s.contract_id.is_none() && s.barrier_digest.is_none());
    let huge = PublicationAuthority::ArtifactRepair {
        key: ArtifactRepairKey::new("gen-1".to_string(), digest(b"f"), u64::MAX),
        attempt_id: digest(b"a"),
        attempt_count: 0,
    };
    assert!(matches!(huge.storage(), Err(MetaStoreError::StorageInvariant)));
}

#[test]
fn malformed_authority_rows_are_refused() {
    let mut row = row_of(&migration());
    row.repair_generation = Some("gen-1".to_string());
    assert_eq!(
        parse_authority(row),
        Err(MetaStoreError::SearchPublication(SearchPublicationFailure::InvalidPersistedState))
    );
    let mut row = row_of(&migration());
    row.contract_id = Some("bad id".to_string());
    assert_eq!(parse_authority(row), Err(MetaStoreError::InvalidValue("identifier")));
    let mut row = row_of(&migration());
    row.attempt_count = Some(256);
    assert_eq!(parse_authority(row), Err(MetaStoreError::StorageInvariant));
    let mut row = row_of(&repair());
    row.repair_visible_epoch = Some(-1);
    assert_eq!(parse_authority(row), Err(MetaStoreError::StorageInvariant));
    let mut row = row_of(&PublicationAuthority::CurrentHead);
    row.kind = "ready".to_string();
    assert_eq!(
        parse_authority(row),
        Err(MetaStoreError::SearchPublication(SearchPublicationFailure::InvalidPersistedState))
    );
    assert_eq!(parse_digest("sha256:00"), Err(MetaStoreError::StorageInvariant));
    assert_eq!(attempt_count_from(255), Ok(255));
    assert_eq!(attempt_count_from(-1), Err(MetaStoreError::StorageInvariant));
    assert_eq!(
        migration_barrier_parts("bad id", "sha256:00").err(),
        Some(MetaStoreError::InvalidValue("identifier"))
    );
    assert_eq!(
        migration_barrier_parts("contract-1", "sha256:00").err(),
        Some(MetaStoreError::StorageInvariant)
    );
}

#[test]
fn begin_routes_follow_the_head() {
    assert_eq!(
        begin_authority_route("ready", Some("gen-1"), 3, None, Some("gen-1"), 3),
        BeginAuthorityRoute::CurrentHead
    );
    assert_eq!(
        begin_authority_route("ready", Some("gen-1"), 4, None, Some("gen-1"), 3),
        BeginAuthorityRoute::NoAuthority
    );
    assert_eq!(
        begin_authority_route("repairing", None, 0, Some("migration_rebuild"), None, 0),
        BeginAuthorityRoute::RunningMigration
    );
    assert_eq!(
        begin_authority_route("repairing", Some("gen-1"), 3, Some("artifact_unavailable"), Some("gen-1"), 3),
        BeginAuthorityRoute::RunningArtifact
    );
    assert_eq!(
        begin_authority_route("repair_blocked", Some("gen-1"), 3, Some("artifact_unavailable"), Some("gen-1"), 3),
        BeginAuthorityRoute::NoAuthority
    );
    assert_eq!(begin_expected_epoch(9), Ok(9));
    assert_eq!(
        begin_expected_epoch(u64::MAX),
        Err(MetaStoreError::SearchPublication(SearchPublicationFailure::InvalidDescriptor))
    );
}

#[test]
fn commits_are_checked_against_the_recorded_authority() {
    let barrier = digest(b"barrier");
    let other = digest(b"other");
    assert_eq!(commit_authority_check(None, None), CommitAuthorityCheck::Refuse);
    assert_eq!(
        commit_authority_check(Some(&PublicationAuthority::CurrentHead), None),
        CommitAuthorityCheck::CurrentReadyHead
    );
    assert_eq!(
        commit_authority_check(Some(&PublicationAuthority::CurrentHead), Some(&barrier)),
        CommitAuthorityCheck::Refuse
    );
    let m = migration();
    assert_eq!(commit_authority_check(Some(&m), Some(&barrier)), CommitAuthorityCheck::MigrationAttempt);
    assert_eq!(commit_authority_check(Some(&m), Some(&other)), CommitAuthorityCheck::Refuse);
    assert_eq!(commit_authority_check(Some(&m), None), CommitAuthorityCheck::Refuse);
    assert_eq!(commit_authority_check(Some(&repair()), None), CommitAuthorityCheck::ArtifactAttempt);
}
