use meta_store::descriptor_records::{
    descriptor_contract, DescriptorContract, CURRENT_FULLTEXT_INDEX, CURRENT_FULLTEXT_MANIFEST,
    CURRENT_VECTOR_INDEX, CURRENT_VECTOR_MANIFEST, LEGACY_FULLTEXT_INDEX,
    LEGACY_FULLTEXT_MANIFEST, LEGACY_VECTOR_INDEX, LEGACY_VECTOR_MANIFEST,
};
use meta_store::error::MetaStoreError;
use meta_store::store_files::{is_reserved_store_authority, text_ends_with, text_starts_with};

const STORE_FILE: &str = "metadata.sqlite3";
const LOCK_FILE: &str = "metadata-store.lock";

#[test]
fn descriptor_contract_rejects_mixed_snapshot_versions() {
    assert!(descriptor_contract(
        Some(LEGACY_FULLTEXT_MANIFEST),
        Some(LEGACY_FULLTEXT_INDEX),
        Some(CURRENT_VECTOR_MANIFEST),
        Some(CURRENT_VECTOR_INDEX),
    )
    .is_err());
    assert!(descriptor_contract(
        Some(CURRENT_FULLTEXT_MANIFEST),
        Some(LEGACY_FULLTEXT_INDEX),
        Some(CURRENT_VECTOR_MANIFEST),
        Some(CURRENT_VECTOR_INDEX),
    )
    .is_err());
}

#[test]
fn descriptor_contract_accepts_uniform_schema_sets() {
    assert_eq!(
        descriptor_contract(None, None, None, None),
        Ok(DescriptorContract::Empty)
    );
    assert_eq!(
        descriptor_contract(
            Some(LEGACY_FULLTEXT_MANIFEST),
            Some(LEGACY_FULLTEXT_INDEX),
            Some(LEGACY_VECTOR_MANIFEST),
            Some(LEGACY_VECTOR_INDEX),
        ),
        Ok(DescriptorContract::Legacy)
    );
    assert_eq!(
        descriptor_contract(
            Some(CURRENT_FULLTEXT_MANIFEST),
            Some(CURRENT_FULLTEXT_INDEX),
            Some(CURRENT_VECTOR_MANIFEST),
            Some(CURRENT_VECTOR_INDEX),
        ),
        Ok(DescriptorContract::Current)
    );
    assert_eq!(
        descriptor_contract(Some(CURRENT_FULLTEXT_MANIFEST), None, None, None),
        Err(MetaStoreError::StorageInvariant)
    );
}

#[test]
fn version_shaped_orphans_are_reserved_store_authorities() {
    for name in [
        "metadata-v26-0123456789abcdef.sqlite3",
        "metadata-v30-fedcba9876543210.sqlite3",
        "metadata-v30-future-format.sqlite3",
        "metadata-v30-0123456789abcdef.sqlite3-wal",
        "metadata-v29-.sqlite3",
        "metadata-v29-!.sqlite3",
        "metadata-v4294967296-deadbeef.sqlite3",
        "metadata-vnext-user-notes.sqlite3",
        "metadata-active.v2",
        LOCK_FILE,
        STORE_FILE,
        "metadata.sqlite3-wal",
        "metadata-secrets",
        "metadata-legacy-cleanup.v1",
        "metadata-v28-migration-attempt.v1",
        ".metadata-v28-migration-attempt.v1.tmp-1",
        ".metadata-active.v1.tmp-7",
        ".metadata-v29-init-abc",
        ".metadata-v30-x.sqlite3-shm",
        "metadata-v31-y.sqlite3-journal",
    ] {
        assert!(
            is_reserved_store_authority(name, STORE_FILE, LOCK_FILE),
            "{name} must be reserved"
        );
    }
}

#[test]
fn similarly_named_user_files_are_not_store_authorities() {
    for name in [
        "metadata-v30-user-notes.txt",
        "notes-metadata-v30-user.sqlite3",
        "metadata",
        "resume.pdf",
        "",
    ] {
        assert!(
            !is_reserved_store_authority(name, STORE_FILE, LOCK_FILE),
            "{name} must not be reserved"
        );
    }
}

#[test]
fn prefix_and_suffix_checks_are_exact() {
    assert!(text_starts_with("metadata-v29", "metadata-v"));
    assert!(text_starts_with("abc", ""));
    assert!(!text_starts_with("ab", "abc"));
    assert!(!text_starts_with("xbc", "abc"));
    assert!(text_ends_with("x.sqlite3", ".sqlite3"));
    assert!(!text_ends_with("x.sqlite3-wal", ".sqlite3"));
    assert!(!text_ends_with("3", ".sqlite3"));
    assert!(text_ends_with("é.txt", ".txt"));
}
