use vstd::prelude::*;
use vstd::utf8::*;
use crate::error::MetaStoreError;
use crate::ids::{DocumentId, SourceRevisionId};
use crate::observation::StrongSourceFileObservation;
use crate::text::text_equal;

verus! {

/// Most scheduling attempts of one PDF reprocess job.
pub const MAX_REPROCESS_ATTEMPTS: i64 = 16;
/// Longest PDF parser contract label, in bytes.
pub const MAX_PARSER_CONTRACT_BYTES: usize = 64;

/// What a root-bound import observed of its source file.
#[derive(Clone, Copy, Debug)]
pub enum SourceRootBoundImportObservation<'a> {
    MetadataOnly,
    Strong(&'a StrongSourceFileObservation),
}

/// What committing a root-bound import scheduled.
#[derive(Clone, Copy, Debug, PartialEq, Eq, Structural)]
pub struct SourceRootBoundImportCommitOutcome {
    pub ocr_job_scheduled: bool,
}

impl SourceRootBoundImportCommitOutcome {
    /// Nothing scheduled.
    pub fn nothing_scheduled() -> (r: Self)
        ensures
            !r.ocr_job_scheduled,
    {
        SourceRootBoundImportCommitOutcome { ocr_job_scheduled: false }
    }
}

/// A strong observation must be of the revision the import commits.
pub fn validate_observation_source(
    observation: SourceRootBoundImportObservation,
    source_revision_id: &SourceRevisionId,
) -> (r: Result<(), MetaStoreError>)
    ensures
        match observation {
            SourceRootBoundImportObservation::MetadataOnly => r == Ok::<(), MetaStoreError>(()),
            SourceRootBoundImportObservation::Strong(o) => if o.source_revision_id@
                == source_revision_id@ {
                r == Ok::<(), MetaStoreError>(())
            } else {
                r == Err::<(), MetaStoreError>(
                    MetaStoreError::InvalidValue("source_root_bound_import.observation"),
                )
            },
        },
{
    match observation {
        SourceRootBoundImportObservation::MetadataOnly => Ok(()),
        SourceRootBoundImportObservation::Strong(o) => {
            if o.source_revision_id.same_as(source_revision_id) {
                Ok(())
            } else {
                Err(MetaStoreError::InvalidValue("source_root_bound_import.observation"))
            }
        },
    }
}

/// An import that could not read its file has no revision to observe
/// strongly.
pub fn validate_read_failure_observation(observation: SourceRootBoundImportObservation) -> (r:
    Result<(), MetaStoreError>)
    ensures
        match observation {
            SourceRootBoundImportObservation::MetadataOnly => r == Ok::<(), MetaStoreError>(()),
            SourceRootBoundImportObservation::Strong(_) => r == Err::<(), MetaStoreError>(
                MetaStoreError::InvalidValue("source_root_bound_import.observation"),
            ),
        },
{
    match observation {
        SourceRootBoundImportObservation::MetadataOnly => Ok(()),
        SourceRootBoundImportObservation::Strong(_) => Err(
            MetaStoreError::InvalidValue("source_root_bound_import.observation"),
        ),
    }
}

/// Why an import task was queued.
#[derive(Clone, Copy, Debug, PartialEq, Eq, Structural)]
pub enum ImportTaskPurpose {
    /// Catching up a configured source root: the only purpose a root-bound
    /// commit serves.
    ConfiguredCatchUp,
    /// Any other purpose.
    Other,
}

/// Which immutable facts an ingest stage carries.
#[derive(Clone, Copy, Debug, PartialEq, Eq, Structural)]
pub enum IngestStageKind {
    /// The triage of a source revision, before any resume is derived.
    SourceTriage,
    /// A classified resume version.
    ClassifiedResume,
}

/// What a root-bound import commits, by kind.
#[derive(Clone, Copy, Debug, PartialEq, Eq, Structural)]
pub enum BoundImportMutationKind {
    Immutable(IngestStageKind),
    OcrRequired(IngestStageKind),
    ExistingRevision,
    ExistingRevisionMetadata,
    ReadFailureWithoutRevision,
}

/// The outcome of the checks of a root-bound commit: only a configured
/// catch-up task may commit, and a revision that needs OCR must be staged as
/// a source triage.
pub open spec fn bound_import_outcome(
    purpose: ImportTaskPurpose,
    mutation: BoundImportMutationKind,
) -> Result<(), MetaStoreError> {
    if purpose != ImportTaskPurpose::ConfiguredCatchUp {
        Err(MetaStoreError::InvalidTransition)
    } else if mutation matches BoundImportMutationKind::OcrRequired(stage)
        && stage != IngestStageKind::SourceTriage {
        Err(MetaStoreError::InvalidValue("source_root_bound_import.ocr_stage"))
    } else {
        Ok(())
    }
}

/// Checks the purpose of the task and the kind of mutation of a root-bound
/// import commit.
pub fn check_bound_import_commit(
    purpose: ImportTaskPurpose,
    mutation: BoundImportMutationKind,
) -> (r: Result<(), MetaStoreError>)
    ensures
        r == bound_import_outcome(purpose, mutation),
        r is Ok <==> (purpose == ImportTaskPurpose::ConfiguredCatchUp && !(
        mutation matches BoundImportMutationKind::OcrRequired(stage) && stage
            != IngestStageKind::SourceTriage)),
{
    match purpose {
        ImportTaskPurpose::ConfiguredCatchUp => {},
        ImportTaskPurpose::Other => return Err(MetaStoreError::InvalidTransition),
    }
    match mutation {
        BoundImportMutationKind::OcrRequired(IngestStageKind::ClassifiedResume) => Err(
            MetaStoreError::InvalidValue("source_root_bound_import.ocr_stage"),
        ),
        _ => Ok(()),
    }
}

/// How observing a source file changed its occurrence.
#[derive(Clone, Copy, Debug, PartialEq, Eq, Structural)]
pub enum OccurrenceChange {
    Inserted,
    Unchanged,
    Replaced,
}

/// The stored occurrence of a path before an observation.
#[derive(Clone, Debug, PartialEq, Eq)]
pub struct PreviousOccurrence {
    pub document_id: String,
    pub source_revision_id: String,
    pub state: String,
}

/// The change an observation makes: a new path is inserted; the same
/// document and revision still present leave it unchanged; anything else
/// replaces it.
pub open spec fn occurrence_change_of(
    previous: Option<PreviousOccurrence>,
    document_id: Seq<char>,
    source_revision_id: Seq<char>,
) -> OccurrenceChange {
    match previous {
        None => OccurrenceChange::Inserted,
        Some(p) => if p.document_id@ == document_id && p.source_revision_id@ == source_revision_id
            && p.state@ == "present"@ {
            OccurrenceChange::Unchanged
        } else {
            OccurrenceChange::Replaced
        },
    }
}

/// A path's occurrence is left unchanged exactly when it still presents
/// the same document at the same source revision; a new path is inserted,
/// and any other observation (a new revision of the same document, another
/// document, or a path no longer present) replaces it.
pub proof fn occurrence_change_tracks_the_revision(
    previous: Option<PreviousOccurrence>,
    document_id: Seq<char>,
    source_revision_id: Seq<char>,
)
    ensures
        occurrence_change_of(previous, document_id, source_revision_id)
            == OccurrenceChange::Inserted <==> previous is None,
        occurrence_change_of(previous, document_id, source_revision_id)
            == OccurrenceChange::Unchanged <==> (previous matches Some(p) && p.document_id@
            == document_id && p.source_revision_id@ == source_revision_id && p.state@
            == "present"@),
        previous matches Some(p) && p.source_revision_id@ != source_revision_id
            ==> occurrence_change_of(previous, document_id, source_revision_id)
            == OccurrenceChange::Replaced,
{
}

/// Classifies an observation of a path against its stored occurrence.
pub fn occurrence_change(
    previous: Option<&PreviousOccurrence>,
    document_id: &DocumentId,
    source_revision_id: &SourceRevisionId,
) -> (r: OccurrenceChange)
    ensures
        r == occurrence_change_of(
            match previous {
                Some(p) => Some(*p),
                None => None,
            },
            document_id@,
            source_revision_id@,
        ),
        r == OccurrenceChange::Inserted <==> previous is None,
        r == OccurrenceChange::Unchanged <==> (previous matches Some(p) && p.document_id@
            == document_id@ && p.source_revision_id@ == source_revision_id@ && p.state@
            == "present"@),
{
    proof {
        occurrence_change_tracks_the_revision(
            match previous {
                Some(p) => Some(*p),
                None => None,
            },
            document_id@,
            source_revision_id@,
        );
    }
    match previous {
        None => OccurrenceChange::Inserted,
        Some(p) => if text_equal(p.document_id.as_str(), document_id.as_str()) && text_equal(
            p.source_revision_id.as_str(),
            source_revision_id.as_str(),
        ) && text_equal(p.state.as_str(), "present") {
            OccurrenceChange::Unchanged
        } else {
            OccurrenceChange::Replaced
        },
    }
}

/// The document a path pointed to before, which becomes a candidate for a
/// tombstone when the path now points to another document.
pub fn displaced_document<'a>(
    previous: Option<&'a PreviousOccurrence>,
    document_id: &DocumentId,
) -> (r: Option<&'a str>)
    ensures
        match previous {
            Some(p) => if p.document_id@ != document_id@ {
                r matches Some(d) && d@ == p.document_id@
            } else {
                r is None
            },
            None => r is None,
        },
{
    match previous {
        Some(p) => if text_equal(p.document_id.as_str(), document_id.as_str()) {
            None
        } else {
            Some(p.document_id.as_str())
        },
        None => None,
    }
}

/// A PDF parser contract label is 1 to 64 bytes.
pub fn validate_parser_contract(parser_contract: &str) -> (r: Result<(), MetaStoreError>)
    ensures
        r is Ok <==> 1 <= encode_utf8(parser_contract@).len() <= MAX_PARSER_CONTRACT_BYTES,
        r is Err ==> r == Err::<(), MetaStoreError>(
            MetaStoreError::InvalidValue("pdf_reprocess_job.parser_contract"),
        ),
{
    let n = parser_contract.as_bytes().len();
    if n == 0 || n > MAX_PARSER_CONTRACT_BYTES {
        Err(MetaStoreError::InvalidValue("pdf_reprocess_job.parser_contract"))
    } else {
        Ok(())
    }
}

/// The state a scheduled PDF reprocess job returns to when its task ends
/// without completing it: queued while attempts remain, else cancelled.
pub fn requeued_reprocess_state(attempts: i64) -> (r: &'static str)
    ensures
        attempts < MAX_REPROCESS_ATTEMPTS ==> r@ == "queued"@,
        attempts >= MAX_REPROCESS_ATTEMPTS ==> r@ == "cancelled"@,
{
    if attempts < MAX_REPROCESS_ATTEMPTS {
        "queued"
    } else {
        "cancelled"
    }
}

/// Whether a queued PDF reprocess job may still be scheduled.
pub fn reprocess_attempt_available(attempts: i64) -> (r: bool)
    ensures
        r == (attempts < MAX_REPROCESS_ATTEMPTS),
{
    attempts < MAX_REPROCESS_ATTEMPTS
}

} // verus!
