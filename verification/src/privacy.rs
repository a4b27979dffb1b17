use vstd::prelude::*;
use crate::error::MetaStoreError;

verus! {

/// Most deleted documents purged in one batch.
pub const PRIVACY_PURGE_BATCH_LIMIT: usize = 128;

/// What one privacy purge removed and how many deleted documents remain.
#[derive(Clone, Copy, Debug, PartialEq, Eq, Structural)]
pub struct PrivacyPurgeReport {
    pub deleted_documents: usize,
    pub remaining_tombstones: u64,
}

/// What finishing a pending privacy compaction does.
#[derive(Clone, Copy, Debug, PartialEq, Eq, Structural)]
pub enum CompactionAction {
    /// Nothing is pending (or the store has no receipt yet).
    Nothing,
    /// Vacuum a file-backed store, then clear the receipt.
    Compact { vacuum: bool },
}

/// Decides how to finish a pending privacy compaction from the stored
/// receipt: a receipt of 0 means nothing is pending, 1 that a compaction is
/// owed; any other value breaks a storage invariant.
pub fn compaction_decision(receipt_exists: bool, pending: i64, file_backed: bool) -> (r: Result<
    CompactionAction,
    MetaStoreError,
>)
    ensures
        !receipt_exists ==> r == Ok::<CompactionAction, MetaStoreError>(CompactionAction::Nothing),
        receipt_exists && pending == 0 ==> r == Ok::<CompactionAction, MetaStoreError>(
            CompactionAction::Nothing,
        ),
        receipt_exists && pending == 1 ==> r == Ok::<CompactionAction, MetaStoreError>(
            CompactionAction::Compact { vacuum: file_backed },
        ),
        receipt_exists && pending != 0 && pending != 1 ==> r == Err::<
            CompactionAction,
            MetaStoreError,
        >(MetaStoreError::StorageInvariant),
{
    if !receipt_exists {
        return Ok(CompactionAction::Nothing);
    }
    if pending == 0 {
        Ok(CompactionAction::Nothing)
    } else if pending == 1 {
        Ok(CompactionAction::Compact { vacuum: file_backed })
    } else {
        Err(MetaStoreError::StorageInvariant)
    }
}

/// What a purge does with the batch of deleted documents it found.
#[derive(Clone, Copy, Debug, PartialEq, Eq, Structural)]
pub enum PurgeBatch {
    /// Nothing is deleted; the purge reports nothing removed and nothing left.
    Empty,
    /// Purge the batch.
    Purge,
}

/// Decides on a batch of deleted documents: an empty batch ends the purge; a
/// batch that still holds a projected document must not be purged.
pub fn purge_batch_decision(batch_count: i64, has_active_projection: bool) -> (r: Result<
    PurgeBatch,
    MetaStoreError,
>)
    ensures
        batch_count == 0 ==> r == Ok::<PurgeBatch, MetaStoreError>(PurgeBatch::Empty),
        batch_count != 0 && has_active_projection ==> r == Err::<PurgeBatch, MetaStoreError>(
            MetaStoreError::InvalidTransition,
        ),
        batch_count != 0 && !has_active_projection ==> r == Ok::<PurgeBatch, MetaStoreError>(
            PurgeBatch::Purge,
        ),
{
    if batch_count == 0 {
        return Ok(PurgeBatch::Empty);
    }
    if has_active_projection {
        return Err(MetaStoreError::InvalidTransition);
    }
    Ok(PurgeBatch::Purge)
}

/// The report of a purge that found no deleted document.
pub fn empty_purge_report() -> (r: PrivacyPurgeReport)
    ensures
        r.deleted_documents == 0 && r.remaining_tombstones == 0,
{
    PrivacyPurgeReport { deleted_documents: 0, remaining_tombstones: 0 }
}

/// The purge removed exactly the documents of the batch it counted.
pub fn check_purged_count(deleted: usize, batch_count: i64) -> (r: Result<(), MetaStoreError>)
    ensures
        deleted == batch_count ==> r == Ok::<(), MetaStoreError>(()),
        deleted != batch_count ==> r == Err::<(), MetaStoreError>(MetaStoreError::StorageInvariant),
{
    if batch_count >= 0 && deleted as u64 == batch_count as u64 {
        Ok(())
    } else {
        Err(MetaStoreError::StorageInvariant)
    }
}

/// The report of a purge: the documents it deleted and the deleted
/// documents that remain for later batches.
pub fn purge_report(deleted: usize, remaining: i64) -> (r: Result<PrivacyPurgeReport, MetaStoreError>)
    ensures
        remaining >= 0 ==> r == Ok::<PrivacyPurgeReport, MetaStoreError>(
            PrivacyPurgeReport { deleted_documents: deleted, remaining_tombstones: remaining as u64 },
        ),
        remaining < 0 ==> r == Err::<PrivacyPurgeReport, MetaStoreError>(
            MetaStoreError::StorageInvariant,
        ),
{
    if remaining < 0 {
        return Err(MetaStoreError::StorageInvariant);
    }
    Ok(PrivacyPurgeReport { deleted_documents: deleted, remaining_tombstones: remaining as u64 })
}

/// A setting check of the store: secure deletion must be on.
pub fn check_secure_delete(setting: i64) -> (r: Result<(), MetaStoreError>)
    ensures
        setting == 1 ==> r == Ok::<(), MetaStoreError>(()),
        setting != 1 ==> r == Err::<(), MetaStoreError>(MetaStoreError::StorageInvariant),
{
    if setting == 1 {
        Ok(())
    } else {
        Err(MetaStoreError::StorageInvariant)
    }
}

} // verus!
