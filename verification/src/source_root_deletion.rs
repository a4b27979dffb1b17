use vstd::prelude::*;
use crate::error::MetaStoreError;
use crate::ids::{valid_identifier, SourceRootId, UnixTimestamp};
use crate::text::text_equal;

verus! {

/// Phase of a source-root deletion receipt.
#[derive(Clone, Copy, Debug, PartialEq, Eq, Structural)]
pub enum SourceRootDeletionPhase {
    Requested,
    Quiescing,
    Publishing,
    Purging,
    Verifying,
    Complete,
    Failed,
}

/// Storage label of a deletion phase.
pub open spec fn deletion_phase_label(value: SourceRootDeletionPhase) -> Seq<char> {
    match value {
        SourceRootDeletionPhase::Requested => "requested"@,
        SourceRootDeletionPhase::Quiescing => "quiescing"@,
        SourceRootDeletionPhase::Publishing => "publishing"@,
        SourceRootDeletionPhase::Purging => "purging"@,
        SourceRootDeletionPhase::Verifying => "verifying"@,
        SourceRootDeletionPhase::Complete => "complete"@,
        SourceRootDeletionPhase::Failed => "failed"@,
    }
}

/// Deletion phase named by a storage label, if any.
pub open spec fn deletion_phase_from_label(label: Seq<char>) -> Option<SourceRootDeletionPhase> {
    if label == "requested"@ {
        Some(SourceRootDeletionPhase::Requested)
    } else if label == "quiescing"@ {
        Some(SourceRootDeletionPhase::Quiescing)
    } else if label == "publishing"@ {
        Some(SourceRootDeletionPhase::Publishing)
    } else if label == "purging"@ {
        Some(SourceRootDeletionPhase::Purging)
    } else if label == "verifying"@ {
        Some(SourceRootDeletionPhase::Verifying)
    } else if label == "complete"@ {
        Some(SourceRootDeletionPhase::Complete)
    } else if label == "failed"@ {
        Some(SourceRootDeletionPhase::Failed)
    } else {
        None
    }
}

/// Parsing the label of a deletion phase gives the phase back.
pub proof fn deletion_phase_label_round_trip(value: SourceRootDeletionPhase)
    ensures
        deletion_phase_from_label(deletion_phase_label(value)) == Some(value),
{
    reveal_strlit("requested");
    reveal_strlit("quiescing");
    reveal_strlit("publishing");
    reveal_strlit("purging");
    reveal_strlit("verifying");
    reveal_strlit("complete");
    reveal_strlit("failed");
    assert("quiescing"@[0] != "requested"@[0]);
    assert("publishing"@.len() != "requested"@.len());
    assert("publishing"@.len() != "quiescing"@.len());
    assert("purging"@.len() != "requested"@.len());
    assert("purging"@.len() != "quiescing"@.len());
    assert("purging"@.len() != "publishing"@.len());
    assert("verifying"@[0] != "requested"@[0]);
    assert("verifying"@[0] != "quiescing"@[0]);
    assert("verifying"@.len() != "publishing"@.len());
    assert("verifying"@.len() != "purging"@.len());
    assert("complete"@.len() != "requested"@.len());
    assert("complete"@.len() != "quiescing"@.len());
    assert("complete"@.len() != "publishing"@.len());
    assert("complete"@.len() != "purging"@.len());
    assert("complete"@.len() != "verifying"@.len());
    assert("failed"@.len() != "requested"@.len());
    assert("failed"@.len() != "quiescing"@.len());
    assert("failed"@.len() != "publishing"@.len());
    assert("failed"@.len() != "purging"@.len());
    assert("failed"@.len() != "verifying"@.len());
    assert("failed"@.len() != "complete"@.len());
}

/// A deletion is in progress until it is complete or has failed.
pub open spec fn phase_is_active(phase: SourceRootDeletionPhase) -> bool {
    phase != SourceRootDeletionPhase::Complete && phase != SourceRootDeletionPhase::Failed
}

impl SourceRootDeletionPhase {
    pub fn as_str(self) -> (r: &'static str)
        ensures
            r@ == deletion_phase_label(self),
    {
        match self {
            SourceRootDeletionPhase::Requested => "requested",
            SourceRootDeletionPhase::Quiescing => "quiescing",
            SourceRootDeletionPhase::Publishing => "publishing",
            SourceRootDeletionPhase::Purging => "purging",
            SourceRootDeletionPhase::Verifying => "verifying",
            SourceRootDeletionPhase::Complete => "complete",
            SourceRootDeletionPhase::Failed => "failed",
        }
    }

    /// Parses a stored phase.
    pub fn parse(value: &str) -> (r: Result<Self, MetaStoreError>)
        ensures
            r matches Ok(phase) ==> deletion_phase_from_label(value@) == Some(phase),
            r is Err <==> deletion_phase_from_label(value@) is None,
            r matches Err(e) ==> e == MetaStoreError::InvalidValue("source_root_deletion.phase"),
    {
        if text_equal(value, "requested") {
            Ok(SourceRootDeletionPhase::Requested)
        } else if text_equal(value, "quiescing") {
            Ok(SourceRootDeletionPhase::Quiescing)
        } else if text_equal(value, "publishing") {
            Ok(SourceRootDeletionPhase::Publishing)
        } else if text_equal(value, "purging") {
            Ok(SourceRootDeletionPhase::Purging)
        } else if text_equal(value, "verifying") {
            Ok(SourceRootDeletionPhase::Verifying)
        } else if text_equal(value, "complete") {
            Ok(SourceRootDeletionPhase::Complete)
        } else if text_equal(value, "failed") {
            Ok(SourceRootDeletionPhase::Failed)
        } else {
            Err(MetaStoreError::InvalidValue("source_root_deletion.phase"))
        }
    }

    /// Whether the deletion this phase belongs to is still in progress.
    pub fn is_active(self) -> (r: bool)
        ensures
            r == phase_is_active(self),
    {
        !matches!(self, SourceRootDeletionPhase::Complete | SourceRootDeletionPhase::Failed)
    }
}

/// Failure recorded against a deletion attempt.
#[derive(Clone, Copy, Debug, PartialEq, Eq, Structural)]
pub enum SourceRootDeletionErrorCode {
    ImportQuiescenceTimeout,
    OcrQuiescenceTimeout,
    PublicationFailed,
    MetadataPurgeFailed,
    PrivacyCleanupFailed,
    ReceiptCompletionFailed,
    Internal,
}

/// Storage label of a deletion error code.
pub open spec fn deletion_error_label(value: SourceRootDeletionErrorCode) -> Seq<char> {
    match value {
        SourceRootDeletionErrorCode::ImportQuiescenceTimeout => "import_quiescence_timeout"@,
        SourceRootDeletionErrorCode::OcrQuiescenceTimeout => "ocr_quiescence_timeout"@,
        SourceRootDeletionErrorCode::PublicationFailed => "publication_failed"@,
        SourceRootDeletionErrorCode::MetadataPurgeFailed => "metadata_purge_failed"@,
        SourceRootDeletionErrorCode::PrivacyCleanupFailed => "privacy_cleanup_failed"@,
        SourceRootDeletionErrorCode::ReceiptCompletionFailed => "receipt_completion_failed"@,
        SourceRootDeletionErrorCode::Internal => "internal"@,
    }
}

/// Deletion error code named by a storage label, if any.
pub open spec fn deletion_error_from_label(label: Seq<char>) -> Option<SourceRootDeletionErrorCode> {
    if label == "import_quiescence_timeout"@ {
        Some(SourceRootDeletionErrorCode::ImportQuiescenceTimeout)
    } else if label == "ocr_quiescence_timeout"@ {
        Some(SourceRootDeletionErrorCode::OcrQuiescenceTimeout)
    } else if label == "publication_failed"@ {
        Some(SourceRootDeletionErrorCode::PublicationFailed)
    } else if label == "metadata_purge_failed"@ {
        Some(SourceRootDeletionErrorCode::MetadataPurgeFailed)
    } else if label == "privacy_cleanup_failed"@ {
        Some(SourceRootDeletionErrorCode::PrivacyCleanupFailed)
    } else if label == "receipt_completion_failed"@ {
        Some(SourceRootDeletionErrorCode::ReceiptCompletionFailed)
    } else if label == "internal"@ {
        Some(SourceRootDeletionErrorCode::Internal)
    } else {
        None
    }
}

/// Parsing the label of an error code gives the code back.
pub proof fn deletion_error_label_round_trip(value: SourceRootDeletionErrorCode)
    ensures
        deletion_error_from_label(deletion_error_label(value)) == Some(value),
{
    reveal_strlit("import_quiescence_timeout");
    reveal_strlit("ocr_quiescence_timeout");
    reveal_strlit("publication_failed");
    reveal_strlit("metadata_purge_failed");
    reveal_strlit("privacy_cleanup_failed");
    reveal_strlit("receipt_completion_failed");
    reveal_strlit("internal");
    assert("ocr_quiescence_timeout"@.len() != "import_quiescence_timeout"@.len());
    assert("publication_failed"@.len() != "import_quiescence_timeout"@.len());
    assert("publication_failed"@.len() != "ocr_quiescence_timeout"@.len());
    assert("metadata_purge_failed"@.len() != "import_quiescence_timeout"@.len());
    assert("metadata_purge_failed"@.len() != "ocr_quiescence_timeout"@.len());
    assert("metadata_purge_failed"@.len() != "publication_failed"@.len());
    assert("privacy_cleanup_failed"@.len() != "import_quiescence_timeout"@.len());
    assert("privacy_cleanup_failed"@[0] != "ocr_quiescence_timeout"@[0]);
    assert("privacy_cleanup_failed"@.len() != "publication_failed"@.len());
    assert("privacy_cleanup_failed"@.len() != "metadata_purge_failed"@.len());
    assert("receipt_completion_failed"@[0] != "import_quiescence_timeout"@[0]);
    assert("receipt_completion_failed"@.len() != "ocr_quiescence_timeout"@.len());
    assert("receipt_completion_failed"@.len() != "publication_failed"@.len());
    assert("receipt_completion_failed"@.len() != "metadata_purge_failed"@.len());
    assert("receipt_completion_failed"@.len() != "privacy_cleanup_failed"@.len());
    assert("internal"@.len() != "import_quiescence_timeout"@.len());
    assert("internal"@.len() != "ocr_quiescence_timeout"@.len());
    assert("internal"@.len() != "publication_failed"@.len());
    assert("internal"@.len() != "metadata_purge_failed"@.len());
    assert("internal"@.len() != "privacy_cleanup_failed"@.len());
    assert("internal"@.len() != "receipt_completion_failed"@.len());
}

impl SourceRootDeletionErrorCode {
    pub fn as_str(self) -> (r: &'static str)
        ensures
            r@ == deletion_error_label(self),
    {
        match self {
            SourceRootDeletionErrorCode::ImportQuiescenceTimeout => "import_quiescence_timeout",
            SourceRootDeletionErrorCode::OcrQuiescenceTimeout => "ocr_quiescence_timeout",
            SourceRootDeletionErrorCode::PublicationFailed => "publication_failed",
            SourceRootDeletionErrorCode::MetadataPurgeFailed => "metadata_purge_failed",
            SourceRootDeletionErrorCode::PrivacyCleanupFailed => "privacy_cleanup_failed",
            SourceRootDeletionErrorCode::ReceiptCompletionFailed => "receipt_completion_failed",
            SourceRootDeletionErrorCode::Internal => "internal",
        }
    }

    /// Parses a stored error code.
    pub fn parse(value: &str) -> (r: Result<Self, MetaStoreError>)
        ensures
            r matches Ok(code) ==> deletion_error_from_label(value@) == Some(code),
            r is Err <==> deletion_error_from_label(value@) is None,
            r matches Err(e) ==> e == MetaStoreError::InvalidValue(
                "source_root_deletion_attempt_evidence.last_error_code",
            ),
    {
        if text_equal(value, "import_quiescence_timeout") {
            Ok(SourceRootDeletionErrorCode::ImportQuiescenceTimeout)
        } else if text_equal(value, "ocr_quiescence_timeout") {
            Ok(SourceRootDeletionErrorCode::OcrQuiescenceTimeout)
        } else if text_equal(value, "publication_failed") {
            Ok(SourceRootDeletionErrorCode::PublicationFailed)
        } else if text_equal(value, "metadata_purge_failed") {
            Ok(SourceRootDeletionErrorCode::MetadataPurgeFailed)
        } else if text_equal(value, "privacy_cleanup_failed") {
            Ok(SourceRootDeletionErrorCode::PrivacyCleanupFailed)
        } else if text_equal(value, "receipt_completion_failed") {
            Ok(SourceRootDeletionErrorCode::ReceiptCompletionFailed)
        } else if text_equal(value, "internal") {
            Ok(SourceRootDeletionErrorCode::Internal)
        } else {
            Err(MetaStoreError::InvalidValue("source_root_deletion_attempt_evidence.last_error_code"))
        }
    }
}
/// Position of a phase along the deletion pipeline.
pub open spec fn phase_rank(phase: SourceRootDeletionPhase) -> int {
    match phase {
        SourceRootDeletionPhase::Requested => 0,
        SourceRootDeletionPhase::Quiescing => 1,
        SourceRootDeletionPhase::Publishing => 2,
        SourceRootDeletionPhase::Purging => 3,
        SourceRootDeletionPhase::Verifying => 4,
        SourceRootDeletionPhase::Complete => 5,
        SourceRootDeletionPhase::Failed => 6,
    }
}

/// A receipt may stay in its phase, advance exactly one step along
/// requested, quiescing, publishing, purging, verifying, complete, or move to
/// failed from anywhere.
pub open spec fn transition_allowed(
    current: SourceRootDeletionPhase,
    next: SourceRootDeletionPhase,
) -> bool {
    ||| current == next
    ||| next == SourceRootDeletionPhase::Failed
    ||| (current == SourceRootDeletionPhase::Requested && next == SourceRootDeletionPhase::Quiescing)
    ||| (current == SourceRootDeletionPhase::Quiescing && next
        == SourceRootDeletionPhase::Publishing)
    ||| (current == SourceRootDeletionPhase::Publishing && next == SourceRootDeletionPhase::Purging)
    ||| (current == SourceRootDeletionPhase::Purging && next == SourceRootDeletionPhase::Verifying)
    ||| (current == SourceRootDeletionPhase::Verifying && next == SourceRootDeletionPhase::Complete)
}

/// Whether a receipt may move from `current` to `next`.
pub fn deletion_phase_transition_allowed(
    current: SourceRootDeletionPhase,
    next: SourceRootDeletionPhase,
) -> (r: bool)
    ensures
        r == transition_allowed(current, next),
{
    current == next || matches!(
        (current, next),
        (SourceRootDeletionPhase::Requested, SourceRootDeletionPhase::Quiescing) | (
            SourceRootDeletionPhase::Quiescing,
            SourceRootDeletionPhase::Publishing,
        ) | (SourceRootDeletionPhase::Publishing, SourceRootDeletionPhase::Purging) | (
            SourceRootDeletionPhase::Purging,
            SourceRootDeletionPhase::Verifying,
        ) | (SourceRootDeletionPhase::Verifying, SourceRootDeletionPhase::Complete) | (
            _,
            SourceRootDeletionPhase::Failed,
        )
    )
}

/// Phases never move backwards: an allowed step keeps the rank or raises it.
pub proof fn deletion_phase_never_regresses(
    current: SourceRootDeletionPhase,
    next: SourceRootDeletionPhase,
)
    requires
        transition_allowed(current, next),
    ensures
        phase_rank(current) <= phase_rank(next),
{
}

/// A failed deletion stays failed.
pub proof fn failed_deletion_is_terminal(next: SourceRootDeletionPhase)
    requires
        transition_allowed(SourceRootDeletionPhase::Failed, next),
    ensures
        next == SourceRootDeletionPhase::Failed,
{
}

/// A complete deletion can only stay complete or be marked failed.
pub proof fn complete_deletion_only_fails(next: SourceRootDeletionPhase)
    requires
        transition_allowed(SourceRootDeletionPhase::Complete, next),
    ensures
        next == SourceRootDeletionPhase::Complete || next == SourceRootDeletionPhase::Failed,
{
}

/// Every step that is not to failed advances at most one phase, so no stage
/// of the pipeline can be skipped.
pub proof fn deletion_phase_steps_are_single(
    current: SourceRootDeletionPhase,
    next: SourceRootDeletionPhase,
)
    requires
        transition_allowed(current, next),
        next != SourceRootDeletionPhase::Failed,
    ensures
        phase_rank(next) == phase_rank(current) || phase_rank(next) == phase_rank(current) + 1,
{
}

/// Largest attempt count the store keeps; further attempts saturate here.
pub const MAX_DELETION_ATTEMPT_COUNT: u64 = 9_007_199_254_740_991;

/// Durable receipt of one source-root deletion with its attempt evidence.
#[derive(Clone, Debug, PartialEq, Eq)]
pub struct SourceRootDeletion {
    pub root_id: SourceRootId,
    pub phase: SourceRootDeletionPhase,
    pub affected_documents: u64,
    pub removed_documents: u64,
    pub started_at: UnixTimestamp,
    pub updated_at: UnixTimestamp,
    pub completed_at: Option<UnixTimestamp>,
    pub attempt_count: u64,
    pub last_attempt_at: Option<UnixTimestamp>,
    pub last_error_phase: Option<SourceRootDeletionPhase>,
    pub last_error_code: Option<SourceRootDeletionErrorCode>,
    pub last_error_at: Option<UnixTimestamp>,
}

pub open spec fn max_i64(a: i64, b: i64) -> i64 {
    if a >= b {
        a
    } else {
        b
    }
}

pub open spec fn saturating_attempt(count: u64) -> u64 {
    if count < MAX_DELETION_ATTEMPT_COUNT {
        (count + 1) as u64
    } else {
        count
    }
}

/// Whether the rest of a receipt is unchanged by an update of the attempt
/// evidence.
pub open spec fn same_receipt(a: SourceRootDeletion, b: SourceRootDeletion) -> bool {
    &&& a.root_id@ == b.root_id@
    &&& a.phase == b.phase
    &&& a.affected_documents == b.affected_documents
    &&& a.removed_documents == b.removed_documents
    &&& a.started_at == b.started_at
    &&& a.updated_at == b.updated_at
    &&& a.completed_at == b.completed_at
}

/// Whether the attempt evidence of two receipts is the same.
pub open spec fn same_evidence(a: SourceRootDeletion, b: SourceRootDeletion) -> bool {
    &&& a.attempt_count == b.attempt_count
    &&& a.last_attempt_at == b.last_attempt_at
    &&& a.last_error_phase == b.last_error_phase
    &&& a.last_error_code == b.last_error_code
    &&& a.last_error_at == b.last_error_at
}

impl SourceRootDeletion {
    /// Receipt written when a deletion is (re)requested: phase requested,
    /// nothing removed yet and no attempt evidence.
    pub fn requested(root_id: SourceRootId, affected_documents: u64, now: UnixTimestamp) -> (r:
        Self)
        ensures
            r.root_id@ == root_id@,
            r.phase == SourceRootDeletionPhase::Requested,
            r.affected_documents == affected_documents,
            r.removed_documents == 0,
            r.started_at == now,
            r.updated_at == now,
            r.completed_at is None,
            r.attempt_count == 0,
            r.last_attempt_at is None,
            r.last_error_phase is None,
            r.last_error_code is None,
            r.last_error_at is None,
    {
        SourceRootDeletion {
            root_id,
            phase: SourceRootDeletionPhase::Requested,
            affected_documents,
            removed_documents: 0,
            started_at: now,
            updated_at: now,
            completed_at: None,
            attempt_count: 0,
            last_attempt_at: None,
            last_error_phase: None,
            last_error_code: None,
            last_error_at: None,
        }
    }

    /// Whether the deletion is still in progress.
    pub fn in_progress(&self) -> (r: bool)
        ensures
            r == phase_is_active(self.phase),
    {
        self.phase.is_active()
    }

    /// Starts a new attempt of an in-progress deletion: counts it (the count
    /// saturates), moves the attempt time forward and clears the last error.
    pub fn begin_attempt(&mut self, now: UnixTimestamp) -> (r: Result<(), MetaStoreError>)
        ensures
            r is Ok <==> phase_is_active(old(self).phase),
            r matches Err(e) ==> e == MetaStoreError::InvalidTransition && *final(self) == *old(
                self,
            ),
            r is Ok ==> {
                &&& same_receipt(*final(self), *old(self))
                &&& final(self).attempt_count == saturating_attempt(old(self).attempt_count)
                &&& final(self).last_attempt_at == Some(
                    UnixTimestamp {
                        seconds: max_i64(
                            match old(self).last_attempt_at {
                                Some(t) => t.seconds,
                                None => 0,
                            },
                            now.seconds,
                        ),
                    },
                )
                &&& final(self).last_error_phase is None
                &&& final(self).last_error_code is None
                &&& final(self).last_error_at is None
            },
    {
        if !self.phase.is_active() {
            return Err(MetaStoreError::InvalidTransition);
        }
        if self.attempt_count < MAX_DELETION_ATTEMPT_COUNT {
            self.attempt_count = self.attempt_count + 1;
        }
        let previous = match self.last_attempt_at {
            Some(t) => t,
            None => UnixTimestamp::from_unix_seconds(0),
        };
        self.last_attempt_at = Some(previous.latest(now));
        self.last_error_phase = None;
        self.last_error_code = None;
        self.last_error_at = None;
        Ok(())
    }

    /// Records that the current attempt failed in `phase`. Refused for a
    /// terminal phase, for a receipt in another phase, and before any
    /// attempt was started.
    pub fn record_attempt_failure(
        &mut self,
        phase: SourceRootDeletionPhase,
        code: SourceRootDeletionErrorCode,
        now: UnixTimestamp,
    ) -> (r: Result<(), MetaStoreError>)
        ensures
            r is Ok <==> (phase_is_active(phase) && old(self).phase == phase
                && old(self).last_attempt_at is Some),
            r matches Err(e) ==> e == MetaStoreError::InvalidTransition && *final(self) == *old(
                self,
            ),
            r is Ok ==> {
                &&& same_receipt(*final(self), *old(self))
                &&& final(self).attempt_count == old(self).attempt_count
                &&& final(self).last_attempt_at == old(self).last_attempt_at
                &&& final(self).last_error_phase == Some(phase)
                &&& final(self).last_error_code == Some(code)
                &&& final(self).last_error_at == Some(
                    UnixTimestamp {
                        seconds: max_i64(old(self).last_attempt_at.unwrap().seconds, now.seconds),
                    },
                )
            },
    {
        if !phase.is_active() || self.phase != phase {
            return Err(MetaStoreError::InvalidTransition);
        }
        match self.last_attempt_at {
            None => Err(MetaStoreError::InvalidTransition),
            Some(attempted) => {
                self.last_error_phase = Some(phase);
                self.last_error_code = Some(code);
                self.last_error_at = Some(attempted.latest(now));
                Ok(())
            },
        }
    }

    /// Moves the receipt to `phase` if the transition is allowed; only a
    /// complete receipt carries a completion time.
    pub fn set_phase(&mut self, phase: SourceRootDeletionPhase, now: UnixTimestamp) -> (r: Result<
        (),
        MetaStoreError,
    >)
        ensures
            r is Ok <==> transition_allowed(old(self).phase, phase),
            r matches Err(e) ==> e == MetaStoreError::InvalidTransition && *final(self) == *old(
                self,
            ),
            r is Ok ==> {
                &&& final(self).root_id@ == old(self).root_id@
                &&& final(self).phase == phase
                &&& final(self).affected_documents == old(self).affected_documents
                &&& final(self).removed_documents == old(self).removed_documents
                &&& final(self).started_at == old(self).started_at
                &&& final(self).updated_at.seconds == max_i64(
                    old(self).updated_at.seconds,
                    now.seconds,
                )
                &&& final(self).completed_at == if phase == SourceRootDeletionPhase::Complete {
                    Some(now)
                } else {
                    None
                }
                &&& same_evidence(*final(self), *old(self))
            },
    {
        if !deletion_phase_transition_allowed(self.phase, phase) {
            return Err(MetaStoreError::InvalidTransition);
        }
        self.phase = phase;
        self.updated_at = self.updated_at.latest(now);
        self.completed_at = if matches!(phase, SourceRootDeletionPhase::Complete) {
            Some(now)
        } else {
            None
        };
        Ok(())
    }

    /// Moves a requested deletion to quiescing with the reconciled count of
    /// documents that only this root references. Refused unless the receipt
    /// is requested, has removed nothing and is not complete.
    pub fn advance_to_quiescing(&mut self, affected_documents: u64, now: UnixTimestamp) -> (r:
        Result<(), MetaStoreError>)
        ensures
            r is Ok <==> (old(self).phase == SourceRootDeletionPhase::Requested
                && old(self).removed_documents == 0 && old(self).completed_at is None),
            r matches Err(e) ==> e == MetaStoreError::InvalidTransition && *final(self) == *old(
                self,
            ),
            r is Ok ==> {
                &&& final(self).root_id@ == old(self).root_id@
                &&& final(self).phase == SourceRootDeletionPhase::Quiescing
                &&& final(self).affected_documents == affected_documents
                &&& final(self).removed_documents == 0
                &&& final(self).started_at == old(self).started_at
                &&& final(self).updated_at.seconds == max_i64(
                    old(self).updated_at.seconds,
                    now.seconds,
                )
                &&& final(self).completed_at is None
                &&& same_evidence(*final(self), *old(self))
            },
    {
        if !matches!(self.phase, SourceRootDeletionPhase::Requested) || self.removed_documents != 0
            || self.completed_at.is_some() {
            return Err(MetaStoreError::InvalidTransition);
        }
        self.affected_documents = affected_documents;
        self.phase = SourceRootDeletionPhase::Quiescing;
        self.updated_at = self.updated_at.latest(now);
        Ok(())
    }

    /// Records a finished purge of `removed` documents; only a purging
    /// receipt moves on, to verifying.
    pub fn record_purge(&mut self, removed: u64, now: UnixTimestamp) -> (r: Result<
        (),
        MetaStoreError,
    >)
        ensures
            r is Ok <==> old(self).phase == SourceRootDeletionPhase::Purging,
            r matches Err(e) ==> e == MetaStoreError::InvalidTransition && *final(self) == *old(
                self,
            ),
            r is Ok ==> {
                &&& final(self).root_id@ == old(self).root_id@
                &&& final(self).phase == SourceRootDeletionPhase::Verifying
                &&& final(self).removed_documents == removed
                &&& final(self).affected_documents == old(self).affected_documents
                &&& final(self).started_at == old(self).started_at
                &&& final(self).updated_at.seconds == max_i64(
                    old(self).updated_at.seconds,
                    now.seconds,
                )
                &&& final(self).completed_at == old(self).completed_at
                &&& same_evidence(*final(self), *old(self))
            },
    {
        if !matches!(self.phase, SourceRootDeletionPhase::Purging) {
            return Err(MetaStoreError::InvalidTransition);
        }
        self.removed_documents = removed;
        self.phase = SourceRootDeletionPhase::Verifying;
        self.updated_at = self.updated_at.latest(now);
        Ok(())
    }

    /// Completes a verified deletion. Any residual row left behind is a
    /// storage invariant failure; a receipt that is not verifying is refused.
    pub fn complete(&mut self, residuals: &SourceRootDeletionCompletionResiduals, now: UnixTimestamp)
        -> (r: Result<(), MetaStoreError>)
        ensures
            r is Ok <==> (residuals_empty(*residuals) && old(self).phase
                == SourceRootDeletionPhase::Verifying),
            !residuals_empty(*residuals) ==> r == Err::<(), MetaStoreError>(
                MetaStoreError::StorageInvariant,
            ),
            residuals_empty(*residuals) && old(self).phase != SourceRootDeletionPhase::Verifying
                ==> r == Err::<(), MetaStoreError>(MetaStoreError::InvalidTransition),
            r is Err ==> *final(self) == *old(self),
            r is Ok ==> {
                &&& final(self).root_id@ == old(self).root_id@
                &&& final(self).phase == SourceRootDeletionPhase::Complete
                &&& final(self).affected_documents == old(self).affected_documents
                &&& final(self).removed_documents == old(self).removed_documents
                &&& final(self).started_at == old(self).started_at
                &&& final(self).updated_at.seconds == max_i64(
                    old(self).updated_at.seconds,
                    now.seconds,
                )
                &&& final(self).completed_at == Some(now)
                &&& same_evidence(*final(self), *old(self))
            },
    {
        if !residuals.is_empty() {
            return Err(MetaStoreError::StorageInvariant);
        }
        if !matches!(self.phase, SourceRootDeletionPhase::Verifying) {
            return Err(MetaStoreError::InvalidTransition);
        }
        self.phase = SourceRootDeletionPhase::Complete;
        self.updated_at = self.updated_at.latest(now);
        self.completed_at = Some(now);
        Ok(())
    }
}

/// Rows that still reference a source root when its deletion is completed.
#[derive(Clone, Copy, Debug, Default, PartialEq, Eq, Structural)]
pub struct SourceRootDeletionCompletionResiduals {
    pub source_occurrences: u64,
    pub scan_snapshots: u64,
    pub pdf_reprocess_jobs: u64,
    pub import_tasks: u64,
    pub authorized_import_roots: u64,
    pub documents: u64,
    /// Active search projections of the deleted documents.
    pub active_search_projections: u64,
    /// OCR page cache rows of content hashes that no retained document uses.
    pub ocr_page_cache: u64,
    pub total: u64,
}

/// Nothing references the root any more: every count of residual rows, and
/// their total, is zero.
pub open spec fn residuals_empty(r: SourceRootDeletionCompletionResiduals) -> bool {
    &&& r.source_occurrences == 0
    &&& r.scan_snapshots == 0
    &&& r.pdf_reprocess_jobs == 0
    &&& r.import_tasks == 0
    &&& r.authorized_import_roots == 0
    &&& r.documents == 0
    &&& r.active_search_projections == 0
    &&& r.ocr_page_cache == 0
    &&& r.total == 0
}

impl SourceRootDeletionCompletionResiduals {
    /// Whether nothing remains: no kind of residual row is left.
    pub fn is_empty(&self) -> (r: bool)
        ensures
            r == residuals_empty(*self),
    {
        self.source_occurrences == 0 && self.scan_snapshots == 0 && self.pdf_reprocess_jobs == 0
            && self.import_tasks == 0 && self.authorized_import_roots == 0 && self.documents == 0
            && self.active_search_projections == 0 && self.ocr_page_cache == 0 && self.total == 0
    }
}

/// Row of a deletion receipt joined with its attempt evidence, as stored.
#[derive(Clone, Debug, PartialEq, Eq)]
pub struct PersistedSourceRootDeletion {
    pub root_id: String,
    pub phase: String,
    pub affected_documents: i64,
    pub removed_documents: i64,
    pub started_at_seconds: i64,
    pub updated_at_seconds: i64,
    pub completed_at_seconds: Option<i64>,
    pub attempt_count: i64,
    pub last_attempt_at_seconds: Option<i64>,
    pub last_error_phase: Option<String>,
    pub last_error_code: Option<String>,
    pub last_error_at_seconds: Option<i64>,
}

/// Converts a stored count, which must not be negative.
pub fn to_u64(value: i64) -> (r: Result<u64, MetaStoreError>)
    ensures
        r is Ok <==> value >= 0,
        r matches Ok(v) ==> v == value,
        r matches Err(e) ==> e == MetaStoreError::StorageInvariant,
{
    if value < 0 {
        Err(MetaStoreError::StorageInvariant)
    } else {
        Ok(value as u64)
    }
}

pub open spec fn optional_seconds(value: Option<i64>) -> Option<UnixTimestamp> {
    match value {
        Some(s) => Some(UnixTimestamp { seconds: s }),
        None => None,
    }
}

fn optional_timestamp(value: Option<i64>) -> (r: Option<UnixTimestamp>)
    ensures
        r == optional_seconds(value),
{
    match value {
        Some(s) => Some(UnixTimestamp::from_unix_seconds(s)),
        None => None,
    }
}

/// Whether an optional stored label is absent or names a value.
pub open spec fn optional_label_ok<T>(label: Option<String>, parse: spec_fn(Seq<char>) -> Option<T>) -> bool {
    match label {
        None => true,
        Some(text) => parse(text@) is Some,
    }
}

/// Whether a stored receipt row describes a receipt.
pub open spec fn persisted_deletion_valid(row: PersistedSourceRootDeletion) -> bool {
    &&& valid_identifier(row.root_id@)
    &&& deletion_phase_from_label(row.phase@) is Some
    &&& row.affected_documents >= 0
    &&& row.removed_documents >= 0
    &&& row.attempt_count >= 0
    &&& optional_label_ok(row.last_error_phase, |s: Seq<char>| deletion_phase_from_label(s))
    &&& optional_label_ok(row.last_error_code, |s: Seq<char>| deletion_error_from_label(s))
}

/// The receipt a valid stored row describes: the labels and seconds of the
/// row, parsed.
pub open spec fn receipt_read_from(row: PersistedSourceRootDeletion, d: SourceRootDeletion) -> bool {
    &&& d.root_id@ == row.root_id@
    &&& deletion_phase_from_label(row.phase@) == Some(d.phase)
    &&& d.affected_documents == row.affected_documents
    &&& d.removed_documents == row.removed_documents
    &&& d.started_at.seconds == row.started_at_seconds
    &&& d.updated_at.seconds == row.updated_at_seconds
    &&& d.completed_at == optional_seconds(row.completed_at_seconds)
    &&& d.attempt_count == row.attempt_count
    &&& d.last_attempt_at == optional_seconds(row.last_attempt_at_seconds)
    &&& d.last_error_phase == match row.last_error_phase {
        None => None,
        Some(text) => deletion_phase_from_label(text@),
    }
    &&& d.last_error_code == match row.last_error_code {
        None => None,
        Some(text) => deletion_error_from_label(text@),
    }
    &&& d.last_error_at == optional_seconds(row.last_error_at_seconds)
}

/// Whether a stored row holds exactly the columns written for a receipt:
/// its identifier, the labels of its phase and last error, its counts and
/// its times in seconds.
pub open spec fn row_holds_receipt(row: PersistedSourceRootDeletion, d: SourceRootDeletion) -> bool {
    &&& row.root_id@ == d.root_id@
    &&& row.phase@ == deletion_phase_label(d.phase)
    &&& row.affected_documents == d.affected_documents
    &&& row.removed_documents == d.removed_documents
    &&& row.started_at_seconds == d.started_at.seconds
    &&& row.updated_at_seconds == d.updated_at.seconds
    &&& optional_seconds(row.completed_at_seconds) == d.completed_at
    &&& row.attempt_count == d.attempt_count
    &&& optional_seconds(row.last_attempt_at_seconds) == d.last_attempt_at
    &&& match (row.last_error_phase, d.last_error_phase) {
        (None, None) => true,
        (Some(text), Some(phase)) => text@ == deletion_phase_label(phase),
        _ => false,
    }
    &&& match (row.last_error_code, d.last_error_code) {
        (None, None) => true,
        (Some(text), Some(code)) => text@ == deletion_error_label(code),
        _ => false,
    }
    &&& optional_seconds(row.last_error_at_seconds) == d.last_error_at
}

/// Reading back the columns written for a receipt with a valid identifier
/// succeeds and gives the same receipt.
pub proof fn stored_deletion_receipt_reads_back(row: PersistedSourceRootDeletion, d: SourceRootDeletion)
    requires
        row_holds_receipt(row, d),
        valid_identifier(d.root_id@),
    ensures
        persisted_deletion_valid(row),
        receipt_read_from(row, d),
{
    deletion_phase_label_round_trip(d.phase);
    match d.last_error_phase {
        Some(phase) => deletion_phase_label_round_trip(phase),
        None => {},
    }
    match d.last_error_code {
        Some(code) => deletion_error_label_round_trip(code),
        None => {},
    }
}

/// Reads a receipt from its stored row.
pub fn source_root_deletion_from_persisted(row: PersistedSourceRootDeletion) -> (r: Result<
    SourceRootDeletion,
    MetaStoreError,
>)
    ensures
        r is Ok <==> persisted_deletion_valid(row),
        r matches Ok(d) ==> receipt_read_from(row, d),
{
    let root_id = match SourceRootId::parse(row.root_id.as_str()) {
        Ok(id) => id,
        Err(e) => return Err(e),
    };
    let phase = match SourceRootDeletionPhase::parse(row.phase.as_str()) {
        Ok(p) => p,
        Err(e) => return Err(e),
    };
    let affected_documents = match to_u64(row.affected_documents) {
        Ok(v) => v,
        Err(e) => return Err(e),
    };
    let removed_documents = match to_u64(row.removed_documents) {
        Ok(v) => v,
        Err(e) => return Err(e),
    };
    let attempt_count = match to_u64(row.attempt_count) {
        Ok(v) => v,
        Err(e) => return Err(e),
    };
    let last_error_phase = match &row.last_error_phase {
        None => None,
        Some(text) => match SourceRootDeletionPhase::parse(text.as_str()) {
            Ok(p) => Some(p),
            Err(e) => return Err(e),
        },
    };
    let last_error_code = match &row.last_error_code {
        None => None,
        Some(text) => match SourceRootDeletionErrorCode::parse(text.as_str()) {
            Ok(c) => Some(c),
            Err(e) => return Err(e),
        },
    };
    Ok(SourceRootDeletion {
        root_id,
        phase,
        affected_documents,
        removed_documents,
        started_at: UnixTimestamp::from_unix_seconds(row.started_at_seconds),
        updated_at: UnixTimestamp::from_unix_seconds(row.updated_at_seconds),
        completed_at: optional_timestamp(row.completed_at_seconds),
        attempt_count,
        last_attempt_at: optional_timestamp(row.last_attempt_at_seconds),
        last_error_phase,
        last_error_code,
        last_error_at: optional_timestamp(row.last_error_at_seconds),
    })
}

} // verus!
