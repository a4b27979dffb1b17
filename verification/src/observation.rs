use vstd::prelude::*;
use vstd::utf8::*;
use crate::descriptor_records::digest_ok;
use crate::digest::ContentDigest;
use crate::error::MetaStoreError;
use crate::ids::{valid_identifier, SourceRevisionId, UnixTimestamp};
use crate::source_root_deletion::{phase_is_active, SourceRootDeletionPhase};

verus! {

/// Assurance kind recorded with every strong source file observation.
pub const SOURCE_FILE_OBSERVATION_ASSURANCE: &'static str = "macos_stat_v1";
/// Nanoseconds in a second.
pub const NANOSECONDS_PER_SECOND: u32 = 1_000_000_000;
/// Largest revocation epoch a source root may reach.
pub const MAX_ROOT_REVOCATION_EPOCH: i64 = 9_007_199_254_740_991;

/// A strong observation of a source file, as stored.
#[derive(Clone, Debug, PartialEq, Eq)]
pub struct SourceFileObservation {
    pub source_revision_id: SourceRevisionId,
    pub content_hash: ContentDigest,
    pub stable_file_id: String,
    pub byte_size: u64,
    pub mtime_seconds: i64,
    pub mtime_nanoseconds: u32,
    pub ctime_seconds: i64,
    pub ctime_nanoseconds: u32,
    pub strongly_verified_at: UnixTimestamp,
    pub next_strong_verification_at: UnixTimestamp,
}

/// A strong observation of a source file, as a caller records it.
#[derive(Clone, Debug, PartialEq, Eq)]
pub struct StrongSourceFileObservation {
    pub source_revision_id: SourceRevisionId,
    pub stable_file_id: String,
    pub byte_size: u64,
    pub mtime_seconds: i64,
    pub mtime_nanoseconds: u32,
    pub ctime_seconds: i64,
    pub ctime_nanoseconds: u32,
    pub strongly_verified_at: UnixTimestamp,
    pub next_strong_verification_at: UnixTimestamp,
}

/// A stable file identifier: `sfi_` and 32 lowercase hexadecimal digits.
pub open spec fn stable_file_id_ok(id: Seq<char>) -> bool {
    let bytes = encode_utf8(id);
    &&& bytes.len() == 36
    &&& bytes.take(4) == seq![115u8, 102u8, 105u8, 95u8]
    &&& forall|i: int|
        4 <= i < 36 ==> (48 <= #[trigger] bytes[i] <= 57 || 97 <= bytes[i] <= 102)
}

/// What a recorded observation must satisfy: a stable file identifier,
/// nanoseconds below a second, a verification time not before the epoch and
/// a later next verification.
pub open spec fn observation_ok(o: StrongSourceFileObservation) -> bool {
    &&& stable_file_id_ok(o.stable_file_id@)
    &&& o.mtime_nanoseconds < NANOSECONDS_PER_SECOND
    &&& o.ctime_nanoseconds < NANOSECONDS_PER_SECOND
    &&& o.strongly_verified_at.seconds >= 0
    &&& o.next_strong_verification_at.seconds > o.strongly_verified_at.seconds
}

fn stable_file_id_is_ok(id: &str) -> (r: bool)
    ensures
        r == stable_file_id_ok(id@),
{
    let bytes = id.as_bytes();
    if bytes.len() != 36 || bytes[0] != 115 || bytes[1] != 102 || bytes[2] != 105 || bytes[3]
        != 95 {
        proof {
            if bytes@.len() == 36 && bytes@.take(4) == seq![115u8, 102u8, 105u8, 95u8] {
                assert(bytes@[0] == bytes@.take(4)[0]);
                assert(bytes@[1] == bytes@.take(4)[1]);
                assert(bytes@[2] == bytes@.take(4)[2]);
                assert(bytes@[3] == bytes@.take(4)[3]);
            }
        }
        return false;
    }
    assert(bytes@.take(4) =~= seq![115u8, 102u8, 105u8, 95u8]);
    let mut i: usize = 4;
    while i < 36
        invariant
            4 <= i <= 36,
            bytes@.len() == 36,
            bytes@ == encode_utf8(id@),
            bytes@.take(4) == seq![115u8, 102u8, 105u8, 95u8],
            forall|k: int| 4 <= k < i ==> (48 <= #[trigger] bytes@[k] <= 57 || 97 <= bytes@[k] <= 102),
        decreases 36 - i,
    {
        let b = bytes[i];
        if !((48 <= b && b <= 57) || (97 <= b && b <= 102)) {
            assert(!(48 <= bytes@[i as int] <= 57 || 97 <= bytes@[i as int] <= 102));
            return false;
        }
        i += 1;
    }
    true
}

/// Checks an observation before it is recorded.
pub fn validate_observation(observation: &StrongSourceFileObservation) -> (r: Result<
    (),
    MetaStoreError,
>)
    ensures
        r is Ok <==> observation_ok(*observation),
        r is Err ==> r == Err::<(), MetaStoreError>(
            MetaStoreError::InvalidValue("source_file_observation"),
        ),
{
    if !stable_file_id_is_ok(observation.stable_file_id.as_str()) || observation.mtime_nanoseconds
        >= NANOSECONDS_PER_SECOND || observation.ctime_nanoseconds >= NANOSECONDS_PER_SECOND
        || observation.strongly_verified_at.as_unix_seconds() < 0
        || observation.next_strong_verification_at.as_unix_seconds()
        <= observation.strongly_verified_at.as_unix_seconds() {
        return Err(MetaStoreError::InvalidValue("source_file_observation"));
    }
    Ok(())
}

/// The stored form of an observed byte size.
pub fn observation_byte_size(byte_size: u64) -> (r: Result<i64, MetaStoreError>)
    ensures
        byte_size <= i64::MAX ==> r == Ok::<i64, MetaStoreError>(byte_size as i64),
        byte_size > i64::MAX ==> r == Err::<i64, MetaStoreError>(
            MetaStoreError::InvalidValue("observation.byte_size"),
        ),
{
    if byte_size <= 9_223_372_036_854_775_807u64 {
        Ok(byte_size as i64)
    } else {
        Err(MetaStoreError::InvalidValue("observation.byte_size"))
    }
}

/// Stored nanoseconds: below a second.
pub fn nanoseconds(value: i64) -> (r: Option<u32>)
    ensures
        0 <= value < NANOSECONDS_PER_SECOND ==> r == Some(value as u32),
        !(0 <= value < NANOSECONDS_PER_SECOND) ==> r is None,
{
    if 0 <= value && value < 1_000_000_000 {
        Some(value as u32)
    } else {
        None
    }
}

/// An observation row as stored.
#[derive(Clone, Debug, PartialEq, Eq)]
pub struct ObservationRow {
    pub source_revision_id: String,
    pub content_hash: String,
    pub stable_file_id: String,
    pub byte_size: i64,
    pub mtime_seconds: i64,
    pub mtime_nanoseconds: i64,
    pub ctime_seconds: i64,
    pub ctime_nanoseconds: i64,
    pub strongly_verified_at_seconds: i64,
    pub next_strong_verification_at_seconds: i64,
}

/// A stored observation row can be read: a valid revision identifier and
/// digest, a size that is not negative and nanoseconds below a second.
pub open spec fn observation_row_ok(row: ObservationRow) -> bool {
    &&& valid_identifier(row.source_revision_id@)
    &&& digest_ok(row.content_hash@)
    &&& row.byte_size >= 0
    &&& 0 <= row.mtime_nanoseconds < NANOSECONDS_PER_SECOND
    &&& 0 <= row.ctime_nanoseconds < NANOSECONDS_PER_SECOND
}

/// Reads a stored observation; `None` where the row cannot be read, which
/// the store reports as a conversion failure of the row.
pub fn source_file_observation_from_row(row: ObservationRow) -> (r: Option<SourceFileObservation>)
    ensures
        r is Some <==> observation_row_ok(row),
        r matches Some(o) ==> {
            &&& o.source_revision_id@ == row.source_revision_id@
            &&& o.content_hash@ == row.content_hash@
            &&& o.stable_file_id == row.stable_file_id
            &&& o.byte_size == row.byte_size
            &&& o.mtime_seconds == row.mtime_seconds
            &&& o.mtime_nanoseconds == row.mtime_nanoseconds
            &&& o.ctime_seconds == row.ctime_seconds
            &&& o.ctime_nanoseconds == row.ctime_nanoseconds
            &&& o.strongly_verified_at.seconds == row.strongly_verified_at_seconds
            &&& o.next_strong_verification_at.seconds == row.next_strong_verification_at_seconds
        },
{
    let source_revision_id = match SourceRevisionId::parse(row.source_revision_id.as_str()) {
        Ok(id) => id,
        Err(_) => return None,
    };
    let content_hash = ContentDigest::parse(row.content_hash.as_str())?;
    if row.byte_size < 0 {
        return None;
    }
    let mtime_nanoseconds = nanoseconds(row.mtime_nanoseconds)?;
    let ctime_nanoseconds = nanoseconds(row.ctime_nanoseconds)?;
    Some(
        SourceFileObservation {
            source_revision_id,
            content_hash,
            stable_file_id: row.stable_file_id,
            byte_size: row.byte_size as u64,
            mtime_seconds: row.mtime_seconds,
            mtime_nanoseconds,
            ctime_seconds: row.ctime_seconds,
            ctime_nanoseconds,
            strongly_verified_at: UnixTimestamp::from_unix_seconds(row.strongly_verified_at_seconds),
            next_strong_verification_at: UnixTimestamp::from_unix_seconds(
                row.next_strong_verification_at_seconds,
            ),
        },
    )
}

/// The stored number of observations.
pub fn observation_count(count: i64) -> (r: Result<u64, MetaStoreError>)
    ensures
        count >= 0 ==> r == Ok::<u64, MetaStoreError>(count as u64),
        count < 0 ==> r == Err::<u64, MetaStoreError>(MetaStoreError::StorageInvariant),
{
    if count >= 0 {
        Ok(count as u64)
    } else {
        Err(MetaStoreError::StorageInvariant)
    }
}

/// A stored revocation epoch is between 0 and its maximum.
pub fn validate_epoch(epoch: i64) -> (r: Result<(), MetaStoreError>)
    ensures
        0 <= epoch <= MAX_ROOT_REVOCATION_EPOCH ==> r == Ok::<(), MetaStoreError>(()),
        !(0 <= epoch <= MAX_ROOT_REVOCATION_EPOCH) ==> r == Err::<(), MetaStoreError>(
            MetaStoreError::StorageInvariant,
        ),
{
    if 0 <= epoch && epoch <= MAX_ROOT_REVOCATION_EPOCH {
        Ok(())
    } else {
        Err(MetaStoreError::StorageInvariant)
    }
}

/// The epoch after a revocation; an epoch at its maximum cannot move.
pub open spec fn revocation_step(current: i64) -> Result<i64, MetaStoreError> {
    if current == MAX_ROOT_REVOCATION_EPOCH {
        Err(MetaStoreError::InvalidTransition)
    } else {
        Ok((current + 1) as i64)
    }
}

/// Computes the epoch after a revocation.
pub fn next_revocation_epoch(current: i64) -> (r: Result<i64, MetaStoreError>)
    requires
        0 <= current <= MAX_ROOT_REVOCATION_EPOCH,
    ensures
        r == revocation_step(current),
{
    if current == MAX_ROOT_REVOCATION_EPOCH {
        return Err(MetaStoreError::InvalidTransition);
    }
    Ok(current + 1)
}

/// Revocation epochs only grow, and stay within bounds: a valid epoch either
/// moves to a larger valid epoch or, at its maximum, refuses to move.
pub proof fn revocation_epoch_grows(current: i64)
    requires
        0 <= current <= MAX_ROOT_REVOCATION_EPOCH,
    ensures
        revocation_step(current) matches Ok(next) ==> current < next <= MAX_ROOT_REVOCATION_EPOCH,
        revocation_step(current) is Err <==> current == MAX_ROOT_REVOCATION_EPOCH,
{
}

fn phase_active(phase: Option<SourceRootDeletionPhase>) -> (r: bool)
    ensures
        r == (phase matches Some(p) && phase_is_active(p)),
{
    match phase {
        Some(p) => p.is_active(),
        None => false,
    }
}

/// A scan may start on a root whose epoch is valid and that is not being
/// deleted; the scan captures the epoch.
pub fn admit_scan(epoch: i64, phase: Option<SourceRootDeletionPhase>) -> (r: Result<
    i64,
    MetaStoreError,
>)
    ensures
        !(0 <= epoch <= MAX_ROOT_REVOCATION_EPOCH) ==> r == Err::<i64, MetaStoreError>(
            MetaStoreError::StorageInvariant,
        ),
        0 <= epoch <= MAX_ROOT_REVOCATION_EPOCH && (phase matches Some(p) && phase_is_active(p))
            ==> r == Err::<i64, MetaStoreError>(MetaStoreError::InvalidTransition),
        0 <= epoch <= MAX_ROOT_REVOCATION_EPOCH && !(phase matches Some(p) && phase_is_active(p))
            ==> r == Ok::<i64, MetaStoreError>(epoch),
{
    validate_epoch(epoch)?;
    if phase_active(phase) {
        return Err(MetaStoreError::InvalidTransition);
    }
    Ok(epoch)
}

/// Whether a scan that captured an epoch may commit: both epochs must be
/// valid, the root must still have the captured epoch, and it must not be
/// being deleted.
pub open spec fn scan_commit_outcome(
    captured_epoch: i64,
    current_epoch: i64,
    phase: Option<SourceRootDeletionPhase>,
) -> Result<(), MetaStoreError> {
    if !(0 <= captured_epoch <= MAX_ROOT_REVOCATION_EPOCH) || !(0 <= current_epoch
        <= MAX_ROOT_REVOCATION_EPOCH) {
        Err(MetaStoreError::StorageInvariant)
    } else if current_epoch != captured_epoch || (phase matches Some(p) && phase_is_active(p)) {
        Err(MetaStoreError::InvalidTransition)
    } else {
        Ok(())
    }
}

/// Checks that a scan may commit.
pub fn validate_scan_commit(
    captured_epoch: i64,
    current_epoch: i64,
    phase: Option<SourceRootDeletionPhase>,
) -> (r: Result<(), MetaStoreError>)
    ensures
        r == scan_commit_outcome(captured_epoch, current_epoch, phase),
{
    validate_epoch(captured_epoch)?;
    validate_epoch(current_epoch)?;
    if current_epoch != captured_epoch || phase_active(phase) {
        return Err(MetaStoreError::InvalidTransition);
    }
    Ok(())
}

/// A scan that captured an epoch cannot commit after a revocation moved
/// the root's epoch on, whatever the deletion phase.
pub proof fn revoked_scan_cannot_commit(captured: i64, phase: Option<SourceRootDeletionPhase>)
    requires
        0 <= captured <= MAX_ROOT_REVOCATION_EPOCH,
    ensures
        revocation_step(captured) matches Ok(revoked) ==> scan_commit_outcome(
            captured,
            revoked,
            phase,
        ) == Err::<(), MetaStoreError>(MetaStoreError::InvalidTransition),
{
}

/// Whether a root is being deleted, from the stored phase of its deletion
/// receipt, if it has one.
pub fn source_root_is_deleting(phase: Option<&str>) -> (r: Result<bool, MetaStoreError>)
    ensures
        match phase {
            None => r == Ok::<bool, MetaStoreError>(false),
            Some(label) => match crate::source_root_deletion::deletion_phase_from_label(label@) {
                Some(p) => r == Ok::<bool, MetaStoreError>(phase_is_active(p)),
                None => r is Err,
            },
        },
{
    match phase {
        None => Ok(false),
        Some(label) => {
            let p = SourceRootDeletionPhase::parse(label)?;
            Ok(p.is_active())
        },
    }
}

/// A deletion receipt found while backfilling revocation epochs: a root
/// that still exists must have an incomplete deletion and a complete
/// deletion must have no root; the existing root starts at epoch 1.
pub fn backfill_receipt(phase: SourceRootDeletionPhase, root_exists: bool) -> (r: Result<
    bool,
    MetaStoreError,
>)
    ensures
        root_exists == (phase == SourceRootDeletionPhase::Complete) ==> r == Err::<
            bool,
            MetaStoreError,
        >(MetaStoreError::StorageInvariant),
        root_exists != (phase == SourceRootDeletionPhase::Complete) ==> r == Ok::<
            bool,
            MetaStoreError,
        >(root_exists),
{
    let complete = match phase {
        SourceRootDeletionPhase::Complete => true,
        _ => false,
    };
    if root_exists == complete {
        return Err(MetaStoreError::StorageInvariant);
    }
    Ok(root_exists)
}

/// The attempt budget after a failed OCR job is renewed: the stored attempt
/// count plus three more attempts.
pub fn renewed_max_attempts(attempt_count: i64) -> (r: Result<u32, MetaStoreError>)
    ensures
        !(0 <= attempt_count <= u32::MAX) ==> r == Err::<u32, MetaStoreError>(
            MetaStoreError::InvalidValue("ingest_job.attempt_count"),
        ),
        0 <= attempt_count <= u32::MAX - 3 ==> r == Ok::<u32, MetaStoreError>(
            (attempt_count + 3) as u32,
        ),
        u32::MAX - 3 < attempt_count <= u32::MAX ==> r == Err::<u32, MetaStoreError>(
            MetaStoreError::InvalidValue("ingest_job.max_attempts"),
        ),
{
    if !(0 <= attempt_count && attempt_count <= 4294967295) {
        return Err(MetaStoreError::InvalidValue("ingest_job.attempt_count"));
    }
    let count = attempt_count as u32;
    match count.checked_add(3) {
        Some(n) => Ok(n),
        None => Err(MetaStoreError::InvalidValue("ingest_job.max_attempts")),
    }
}

} // verus!
