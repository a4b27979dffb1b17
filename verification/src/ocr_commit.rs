use vstd::prelude::*;
use crate::digest::ContentDigest;
use crate::error::{MetaStoreError, SearchPublicationFailure};
use crate::ids::{ActiveSearchProjection, DocumentId, ResumeVersionId, SourceRevisionId};
use crate::publication_model::{DocumentStatus, SearchPublicationCommit, TerminalDocumentUpdate};
use crate::publication_validation::current_classifier_epoch;
use crate::contract::CLASSIFIER_EPOCH;
use crate::text::text_equal;

verus! {

/// Lifecycle status of an ingest job.
#[derive(Clone, Copy, Debug, PartialEq, Eq, Structural)]
pub enum IngestJobStatus {
    Queued,
    Running,
    Completed,
    FailedRetryable,
    FailedPermanent,
    Interrupted,
}

/// What an OCR publication reads of the ingest job it settles.
pub struct OcrJobFacts {
    pub document_id: DocumentId,
    pub is_ocr_document: bool,
    pub status: IngestJobStatus,
    pub attempt_count: u32,
    pub resume_version_id: Option<ResumeVersionId>,
}

/// A running OCR claim: its job, and the source revision and fingerprint it
/// was claimed for.
pub struct ClaimedOcrJob {
    pub job: OcrJobFacts,
    pub source_revision_id: SourceRevisionId,
    pub source_fingerprint: String,
}

/// The source revision an OCR publication records.
pub struct SourceRevisionFacts {
    pub id: SourceRevisionId,
    pub document_id: DocumentId,
    pub content_hash: ContentDigest,
}

/// The resume version an OCR publication records.
pub struct ResumeVersionFacts {
    pub id: ResumeVersionId,
    pub document_id: DocumentId,
    pub source_revision_id: SourceRevisionId,
}

/// The classification an OCR publication records.
pub struct ClassificationFacts {
    pub resume_version_id: ResumeVersionId,
    pub classifier_epoch: String,
    pub is_resume_candidate: bool,
    pub is_ocr_backlog: bool,
}

/// Immutable OCR-derived facts that may become durable only together with
/// the validated search publication and the running OCR claim. Of the entity
/// mentions and contact hashes only their presence is read here.
#[derive(Clone, Copy)]
pub struct OcrSearchPublicationCommit<'a> {
    pub search: SearchPublicationCommit<'a>,
    pub claimed: &'a ClaimedOcrJob,
    pub source_revision: &'a SourceRevisionFacts,
    pub version: &'a ResumeVersionFacts,
    pub classification: &'a ClassificationFacts,
    pub mention_count: usize,
    pub has_email_hash: bool,
    pub has_phone_hash: bool,
}

/// The version the first projection of a document gives it.
pub open spec fn first_version_of(ps: Seq<ActiveSearchProjection>, document: Seq<char>) -> Option<
    Seq<char>,
>
    decreases ps.len(),
{
    if ps.len() == 0 {
        None
    } else if ps[0].document_id@ == document {
        Some(ps[0].resume_version_id@)
    } else {
        first_version_of(ps.drop_first(), document)
    }
}

/// Finds the version the first projection of a document gives it.
pub fn first_projected_version<'a>(ps: &'a [ActiveSearchProjection], document: &DocumentId) -> (r:
    Option<&'a ResumeVersionId>)
    ensures
        match r {
            Some(v) => first_version_of(ps@, document@) == Some(v@),
            None => first_version_of(ps@, document@) is None,
        },
{
    let mut i: usize = 0;
    assert(ps@.skip(0) =~= ps@);
    while i < ps.len()
        invariant
            i <= ps.len(),
            first_version_of(ps@, document@) == first_version_of(ps@.skip(i as int), document@),
        decreases ps.len() - i,
    {
        proof {
            assert(ps@.skip(i as int).drop_first() =~= ps@.skip(i + 1));
            assert(ps@.skip(i as int)[0] == ps@[i as int]);
        }
        if ps[i].document_id.same_as(document) {
            return Some(&ps[i].resume_version_id);
        }
        i += 1;
    }
    None
}

/// The single terminal update of an OCR publication moves the claimed
/// document from `OcrRequired`, live and with the claimed fingerprint, to
/// `Searchable` for a resume candidate and to `Excluded` otherwise, live.
pub open spec fn ocr_terminal_ok(
    terminal: TerminalDocumentUpdate,
    document: Seq<char>,
    fingerprint: Seq<char>,
    candidate: bool,
) -> bool {
    &&& terminal.document_id@ == document
    &&& terminal.expected_status == DocumentStatus::OcrRequired
    &&& !terminal.expected_is_deleted
    &&& terminal.expected_content_hash@ == fingerprint
    &&& terminal.terminal_status == (if candidate {
        DocumentStatus::Searchable
    } else {
        DocumentStatus::Excluded
    })
    &&& !terminal.terminal_is_deleted
}

/// Whether an OCR publication fits its claim: the job is a running OCR job
/// with an attempt and no version yet; exactly one terminal update, for the
/// claimed document; revision, version and classification chain to the
/// claim; the classifier epoch is current and the classification is not the
/// OCR backlog; a candidate, and only a candidate, is projected with this
/// version; and a non-candidate records no mentions and no contact hashes.
pub open spec fn ocr_commit_ok(p: OcrSearchPublicationCommit) -> bool {
    let job = p.claimed.job;
    let candidate = p.classification.is_resume_candidate;
    let terminals = p.search.terminal_documents@;
    &&& job.is_ocr_document
    &&& job.status == IngestJobStatus::Running
    &&& job.attempt_count > 0
    &&& job.resume_version_id is None
    &&& terminals.len() == 1
    &&& ocr_terminal_ok(terminals[0], job.document_id@, p.claimed.source_fingerprint@, candidate)
    &&& p.source_revision.document_id@ == job.document_id@
    &&& p.source_revision.id@ == p.claimed.source_revision_id@
    &&& p.source_revision.content_hash@ == p.claimed.source_fingerprint@
    &&& p.version.document_id@ == job.document_id@
    &&& p.version.source_revision_id@ == p.source_revision.id@
    &&& p.classification.resume_version_id@ == p.version.id@
    &&& current_classifier_epoch(p.classification.classifier_epoch@)
    &&& !p.classification.is_ocr_backlog
    &&& candidate == (first_version_of(p.search.projections@, job.document_id@) == Some(
        p.version.id@,
    ))
    &&& (candidate || p.mention_count == 0)
    &&& (candidate || (!p.has_email_hash && !p.has_phone_hash))
}

fn ocr_terminal_matches(
    terminal: &TerminalDocumentUpdate,
    document: &DocumentId,
    fingerprint: &str,
    candidate: bool,
) -> (r: bool)
    ensures
        r == ocr_terminal_ok(*terminal, document@, fingerprint@, candidate),
{
    let wanted = if candidate {
        DocumentStatus::Searchable
    } else {
        DocumentStatus::Excluded
    };
    terminal.document_id.same_as(document) && terminal.expected_status == DocumentStatus::OcrRequired
        && !terminal.expected_is_deleted && text_equal(
        terminal.expected_content_hash.as_str(),
        fingerprint,
    ) && terminal.terminal_status == wanted && !terminal.terminal_is_deleted
}

/// Checks an OCR publication against its claim; any mismatch is refused as
/// an invalid `ingest_job.ocr_search_publication`.
pub fn validate_ocr_search_publication_commit(publication: &OcrSearchPublicationCommit) -> (r:
    Result<(), MetaStoreError>)
    ensures
        ocr_commit_ok(*publication) ==> r is Ok,
        !ocr_commit_ok(*publication) ==> r == Err::<(), MetaStoreError>(
            MetaStoreError::InvalidValue("ingest_job.ocr_search_publication"),
        ),
{
    let claimed = publication.claimed;
    let job = &claimed.job;
    let candidate = publication.classification.is_resume_candidate;
    let terminals = publication.search.terminal_documents;
    let projected = first_projected_version(publication.search.projections, &job.document_id);
    let projected_matches = match projected {
        Some(v) => v.same_as(&publication.version.id),
        None => false,
    };
    let valid_terminal = terminals.len() == 1 && ocr_terminal_matches(
        &terminals[0],
        &job.document_id,
        claimed.source_fingerprint.as_str(),
        candidate,
    );
    let valid = job.is_ocr_document && job.status == IngestJobStatus::Running && job.attempt_count
        > 0 && job.resume_version_id.is_none() && valid_terminal
        && publication.source_revision.document_id.same_as(&job.document_id)
        && publication.source_revision.id.same_as(&claimed.source_revision_id) && text_equal(
        publication.source_revision.content_hash.as_str(),
        claimed.source_fingerprint.as_str(),
    ) && publication.version.document_id.same_as(&job.document_id)
        && publication.version.source_revision_id.same_as(&publication.source_revision.id)
        && publication.classification.resume_version_id.same_as(&publication.version.id)
        && text_equal(publication.classification.classifier_epoch.as_str(), CLASSIFIER_EPOCH)
        && !publication.classification.is_ocr_backlog && candidate == projected_matches && (
    candidate || publication.mention_count == 0) && (candidate || (!publication.has_email_hash
        && !publication.has_phone_hash));
    if valid {
        Ok(())
    } else {
        Err(MetaStoreError::InvalidValue("ingest_job.ocr_search_publication"))
    }
}


/// What committing an OCR publication did.
#[derive(Clone, Copy, Debug, PartialEq, Eq, Structural)]
pub enum OcrSearchPublicationOutcome {
    Applied,
    /// The OCR claim is no longer the running one; it was discarded.
    ClaimSuperseded,
    /// The search head moved on; nothing was published.
    PublicationSuperseded,
}

/// The validated search publication must have been built with the classifier
/// epoch the OCR classification records.
pub fn check_ocr_classifier_epoch(publication_epoch: &str, classification_epoch: &str) -> (r: Result<
    (),
    MetaStoreError,
>)
    ensures
        r is Ok <==> publication_epoch@ == classification_epoch@,
        r is Err ==> r == Err::<(), MetaStoreError>(
            MetaStoreError::SearchPublication(SearchPublicationFailure::ExactClassificationMissing),
        ),
{
    if text_equal(publication_epoch, classification_epoch) {
        Ok(())
    } else {
        Err(MetaStoreError::SearchPublication(SearchPublicationFailure::ExactClassificationMissing))
    }
}

} // verus!
