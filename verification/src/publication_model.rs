use vstd::prelude::*;
use crate::digest::ContentDigest;
use crate::error::{publication_error, MetaStoreError, SearchPublicationFailure};
use crate::ids::{ActiveSearchProjection, DocumentId, UnixTimestamp};
use crate::projection_digest::SearchProjectionDigest;
use crate::text::text_equal;

verus! {

/// Manifest schema of full-text snapshots written by this build.
pub const FULLTEXT_MANIFEST_SCHEMA_V3: &'static str = "fulltext.snapshot.v3";
/// Index schema of full-text snapshots written by this build.
pub const FULLTEXT_INDEX_SCHEMA_V3: &'static str = "tantivy.fulltext.v3";
/// Manifest schema of vector snapshots written by this build.
pub const VECTOR_MANIFEST_SCHEMA_V4: &'static str = "vector.snapshot.v4";
/// Index schema of vector snapshots written by this build.
pub const VECTOR_INDEX_SCHEMA_V4: &'static str = "hnsw-vector.v4";

/// Lifecycle state of a search publication.
#[derive(Clone, Copy, Debug, PartialEq, Eq, Structural)]
pub enum SearchPublicationState {
    Preparing,
    Validated,
    Ready,
    Abandoned,
}

/// Storage label of a publication state.
pub open spec fn publication_state_label(value: SearchPublicationState) -> Seq<char> {
    match value {
        SearchPublicationState::Preparing => "preparing"@,
        SearchPublicationState::Validated => "validated"@,
        SearchPublicationState::Ready => "ready"@,
        SearchPublicationState::Abandoned => "abandoned"@,
    }
}

/// Publication state named by a storage label, if any.
pub open spec fn publication_state_from_label(label: Seq<char>) -> Option<SearchPublicationState> {
    if label == "preparing"@ {
        Some(SearchPublicationState::Preparing)
    } else if label == "validated"@ {
        Some(SearchPublicationState::Validated)
    } else if label == "ready"@ {
        Some(SearchPublicationState::Ready)
    } else if label == "abandoned"@ {
        Some(SearchPublicationState::Abandoned)
    } else {
        None
    }
}

/// Parsing the label of a publication state gives the state back.
pub proof fn publication_state_label_round_trip(value: SearchPublicationState)
    ensures
        publication_state_from_label(publication_state_label(value)) == Some(value),
{
    reveal_strlit("preparing");
    reveal_strlit("validated");
    reveal_strlit("ready");
    reveal_strlit("abandoned");
    assert("validated"@[0] != "preparing"@[0]);
    assert("ready"@.len() != "preparing"@.len());
    assert("ready"@.len() != "validated"@.len());
    assert("abandoned"@[0] != "preparing"@[0]);
    assert("abandoned"@[0] != "validated"@[0]);
    assert("abandoned"@.len() != "ready"@.len());
}

impl SearchPublicationState {
    pub fn as_str(self) -> (r: &'static str)
        ensures
            r@ == publication_state_label(self),
    {
        match self {
            SearchPublicationState::Preparing => "preparing",
            SearchPublicationState::Validated => "validated",
            SearchPublicationState::Ready => "ready",
            SearchPublicationState::Abandoned => "abandoned",
        }
    }

    /// Parses a stored state; an unknown label is invalid persisted state.
    pub fn parse(value: &str) -> (r: Result<Self, MetaStoreError>)
        ensures
            r matches Ok(state) ==> publication_state_from_label(value@) == Some(state),
            r is Err <==> publication_state_from_label(value@) is None,
            r matches Err(e) ==> e == MetaStoreError::SearchPublication(SearchPublicationFailure::InvalidPersistedState),
    {
        if text_equal(value, "preparing") {
            Ok(SearchPublicationState::Preparing)
        } else if text_equal(value, "validated") {
            Ok(SearchPublicationState::Validated)
        } else if text_equal(value, "ready") {
            Ok(SearchPublicationState::Ready)
        } else if text_equal(value, "abandoned") {
            Ok(SearchPublicationState::Abandoned)
        } else {
            Err(publication_error(SearchPublicationFailure::InvalidPersistedState))
        }
    }
}

/// Lifecycle status of a document.
#[derive(Clone, Copy, Debug, PartialEq, Eq, Structural)]
pub enum DocumentStatus {
    Pending,
    OcrRequired,
    Searchable,
    Excluded,
    FailedRetryable,
    FailedPermanent,
    Deleted,
}

/// Storage label of a document status.
pub open spec fn document_status_label(value: DocumentStatus) -> Seq<char> {
    match value {
        DocumentStatus::Pending => "pending"@,
        DocumentStatus::OcrRequired => "ocr_required"@,
        DocumentStatus::Searchable => "searchable"@,
        DocumentStatus::Excluded => "excluded"@,
        DocumentStatus::FailedRetryable => "failed_retryable"@,
        DocumentStatus::FailedPermanent => "failed_permanent"@,
        DocumentStatus::Deleted => "deleted"@,
    }
}

/// Document status named by a storage label, if any.
pub open spec fn document_status_from_label(label: Seq<char>) -> Option<DocumentStatus> {
    if label == "pending"@ {
        Some(DocumentStatus::Pending)
    } else if label == "ocr_required"@ {
        Some(DocumentStatus::OcrRequired)
    } else if label == "searchable"@ {
        Some(DocumentStatus::Searchable)
    } else if label == "excluded"@ {
        Some(DocumentStatus::Excluded)
    } else if label == "failed_retryable"@ {
        Some(DocumentStatus::FailedRetryable)
    } else if label == "failed_permanent"@ {
        Some(DocumentStatus::FailedPermanent)
    } else if label == "deleted"@ {
        Some(DocumentStatus::Deleted)
    } else {
        None
    }
}

/// Parsing the label of a document status gives the status back.
pub proof fn document_status_label_round_trip(value: DocumentStatus)
    ensures
        document_status_from_label(document_status_label(value)) == Some(value),
{
    reveal_strlit("pending");
    reveal_strlit("ocr_required");
    reveal_strlit("searchable");
    reveal_strlit("excluded");
    reveal_strlit("failed_retryable");
    reveal_strlit("failed_permanent");
    reveal_strlit("deleted");
    assert("ocr_required"@.len() != "pending"@.len());
    assert("searchable"@.len() != "pending"@.len());
    assert("searchable"@.len() != "ocr_required"@.len());
    assert("excluded"@.len() != "pending"@.len());
    assert("excluded"@.len() != "ocr_required"@.len());
    assert("excluded"@.len() != "searchable"@.len());
    assert("failed_retryable"@.len() != "pending"@.len());
    assert("failed_retryable"@.len() != "ocr_required"@.len());
    assert("failed_retryable"@.len() != "searchable"@.len());
    assert("failed_retryable"@.len() != "excluded"@.len());
    assert("failed_permanent"@.len() != "pending"@.len());
    assert("failed_permanent"@.len() != "ocr_required"@.len());
    assert("failed_permanent"@.len() != "searchable"@.len());
    assert("failed_permanent"@.len() != "excluded"@.len());
    assert("failed_permanent"@[7] != "failed_retryable"@[7]);
    assert("deleted"@[0] != "pending"@[0]);
    assert("deleted"@.len() != "ocr_required"@.len());
    assert("deleted"@.len() != "searchable"@.len());
    assert("deleted"@.len() != "excluded"@.len());
    assert("deleted"@.len() != "failed_retryable"@.len());
    assert("deleted"@.len() != "failed_permanent"@.len());
}

impl DocumentStatus {
    pub fn as_str(self) -> (r: &'static str)
        ensures
            r@ == document_status_label(self),
    {
        match self {
            DocumentStatus::Pending => "pending",
            DocumentStatus::OcrRequired => "ocr_required",
            DocumentStatus::Searchable => "searchable",
            DocumentStatus::Excluded => "excluded",
            DocumentStatus::FailedRetryable => "failed_retryable",
            DocumentStatus::FailedPermanent => "failed_permanent",
            DocumentStatus::Deleted => "deleted",
        }
    }

    pub fn parse(value: &str) -> (r: Option<Self>)
        ensures
            r == document_status_from_label(value@),
    {
        if text_equal(value, "pending") {
            Some(DocumentStatus::Pending)
        } else if text_equal(value, "ocr_required") {
            Some(DocumentStatus::OcrRequired)
        } else if text_equal(value, "searchable") {
            Some(DocumentStatus::Searchable)
        } else if text_equal(value, "excluded") {
            Some(DocumentStatus::Excluded)
        } else if text_equal(value, "failed_retryable") {
            Some(DocumentStatus::FailedRetryable)
        } else if text_equal(value, "failed_permanent") {
            Some(DocumentStatus::FailedPermanent)
        } else if text_equal(value, "deleted") {
            Some(DocumentStatus::Deleted)
        } else {
            None
        }
    }
}
/// Whether a publication changed the visible search head.
#[derive(Clone, Copy, Debug, PartialEq, Eq, Structural)]
pub enum SearchPublicationOutcome {
    Applied,
    Superseded,
}

/// What settling a failed retirement did to the search head.
#[derive(Clone, Copy, Debug, PartialEq, Eq, Structural)]
pub enum SearchPublicationRetirementFailureOutcome {
    HeadBlocked,
    ExactHeadAlreadyBlocked,
    HeadSuperseded,
}

/// Mathematical value of a full-text snapshot descriptor.
pub struct FullTextView {
    pub generation: Seq<char>,
    pub document_count: u64,
    pub projection_digest: Seq<char>,
    pub logical_content_digest: Seq<char>,
}

/// Immutable description of one full-text snapshot generation.
#[derive(Clone, PartialEq, Eq, Debug)]
pub struct FullTextSnapshotDescriptor {
    generation: String,
    document_count: u64,
    projection_digest: SearchProjectionDigest,
    logical_content_digest: ContentDigest,
}

impl View for FullTextSnapshotDescriptor {
    type V = FullTextView;

    closed spec fn view(&self) -> FullTextView {
        FullTextView {
            generation: self.generation@,
            document_count: self.document_count,
            projection_digest: self.projection_digest@,
            logical_content_digest: self.logical_content_digest@,
        }
    }
}

impl FullTextSnapshotDescriptor {
    pub fn new(
        generation: String,
        document_count: u64,
        projection_digest: SearchProjectionDigest,
        logical_content_digest: ContentDigest,
    ) -> (r: Self)
        ensures
            r@ == (FullTextView {
                generation: generation@,
                document_count,
                projection_digest: projection_digest@,
                logical_content_digest: logical_content_digest@,
            }),
    {
        FullTextSnapshotDescriptor {
            generation,
            document_count,
            projection_digest,
            logical_content_digest,
        }
    }

    pub fn generation(&self) -> (r: &str)
        ensures
            r@ == self@.generation,
    {
        self.generation.as_str()
    }

    pub fn manifest_schema(&self) -> (r: &'static str)
        ensures
            r@ == FULLTEXT_MANIFEST_SCHEMA_V3@,
    {
        FULLTEXT_MANIFEST_SCHEMA_V3
    }

    pub fn index_schema(&self) -> (r: &'static str)
        ensures
            r@ == FULLTEXT_INDEX_SCHEMA_V3@,
    {
        FULLTEXT_INDEX_SCHEMA_V3
    }

    pub fn document_count(&self) -> (r: u64)
        ensures
            r == self@.document_count,
    {
        self.document_count
    }

    pub fn projection_digest(&self) -> (r: &SearchProjectionDigest)
        ensures
            r@ == self@.projection_digest,
    {
        &self.projection_digest
    }

    pub fn logical_content_digest(&self) -> (r: &ContentDigest)
        ensures
            r@ == self@.logical_content_digest,
    {
        &self.logical_content_digest
    }
}

/// Whether a vector snapshot carries vectors, and of which model.
#[derive(Clone, PartialEq, Eq, Debug)]
pub enum VectorSnapshotMode {
    Disabled,
    Enabled { model_id: String, dimension: u32 },
}

/// Mathematical value of a vector snapshot mode.
pub enum VectorModeView {
    Disabled,
    Enabled { model_id: Seq<char>, dimension: u32 },
}

pub open spec fn mode_view(mode: VectorSnapshotMode) -> VectorModeView {
    match mode {
        VectorSnapshotMode::Disabled => VectorModeView::Disabled,
        VectorSnapshotMode::Enabled { model_id, dimension } => VectorModeView::Enabled {
            model_id: model_id@,
            dimension,
        },
    }
}

/// Mathematical value of a vector snapshot descriptor.
pub struct VectorView {
    pub generation: Seq<char>,
    pub mode: VectorModeView,
    pub projection_count: u64,
    pub projection_digest: Seq<char>,
    pub coverage_digest: Seq<char>,
    pub vector_count: u64,
    pub document_count: u64,
    pub resume_version_count: u64,
    pub logical_content_digest: Seq<char>,
}

/// Immutable description of one vector snapshot generation.
#[derive(Clone, PartialEq, Eq, Debug)]
pub struct VectorSnapshotDescriptor {
    generation: String,
    mode: VectorSnapshotMode,
    projection_count: u64,
    projection_digest: SearchProjectionDigest,
    coverage_digest: SearchProjectionDigest,
    vector_count: u64,
    document_count: u64,
    resume_version_count: u64,
    logical_content_digest: ContentDigest,
}

/// Named construction contract for an enabled immutable vector snapshot.
/// The publication validator checks the cross-field invariants before this
/// descriptor can become authoritative.
pub struct EnabledVectorSnapshotDescriptor {
    pub generation: String,
    pub model_id: String,
    pub dimension: u32,
    pub projection_count: u64,
    pub projection_digest: SearchProjectionDigest,
    pub coverage_digest: SearchProjectionDigest,
    pub vector_count: u64,
    pub document_count: u64,
    pub resume_version_count: u64,
    pub logical_content_digest: ContentDigest,
}

impl View for VectorSnapshotDescriptor {
    type V = VectorView;

    closed spec fn view(&self) -> VectorView {
        VectorView {
            generation: self.generation@,
            mode: mode_view(self.mode),
            projection_count: self.projection_count,
            projection_digest: self.projection_digest@,
            coverage_digest: self.coverage_digest@,
            vector_count: self.vector_count,
            document_count: self.document_count,
            resume_version_count: self.resume_version_count,
            logical_content_digest: self.logical_content_digest@,
        }
    }
}

impl VectorSnapshotDescriptor {
    /// Descriptor of a snapshot without vectors: all vector counts are zero.
    pub fn disabled(
        generation: String,
        projection_count: u64,
        projection_digest: SearchProjectionDigest,
        coverage_digest: SearchProjectionDigest,
        logical_content_digest: ContentDigest,
    ) -> (r: Self)
        ensures
            r@ == (VectorView {
                generation: generation@,
                mode: VectorModeView::Disabled,
                projection_count,
                projection_digest: projection_digest@,
                coverage_digest: coverage_digest@,
                vector_count: 0,
                document_count: 0,
                resume_version_count: 0,
                logical_content_digest: logical_content_digest@,
            }),
    {
        VectorSnapshotDescriptor {
            generation,
            mode: VectorSnapshotMode::Disabled,
            projection_count,
            projection_digest,
            coverage_digest,
            vector_count: 0,
            document_count: 0,
            resume_version_count: 0,
            logical_content_digest,
        }
    }

    /// Descriptor of a snapshot with vectors of one model.
    pub fn enabled(descriptor: EnabledVectorSnapshotDescriptor) -> (r: Self)
        ensures
            r@ == (VectorView {
                generation: descriptor.generation@,
                mode: VectorModeView::Enabled {
                    model_id: descriptor.model_id@,
                    dimension: descriptor.dimension,
                },
                projection_count: descriptor.projection_count,
                projection_digest: descriptor.projection_digest@,
                coverage_digest: descriptor.coverage_digest@,
                vector_count: descriptor.vector_count,
                document_count: descriptor.document_count,
                resume_version_count: descriptor.resume_version_count,
                logical_content_digest: descriptor.logical_content_digest@,
            }),
    {
        VectorSnapshotDescriptor {
            generation: descriptor.generation,
            mode: VectorSnapshotMode::Enabled {
                model_id: descriptor.model_id,
                dimension: descriptor.dimension,
            },
            projection_count: descriptor.projection_count,
            projection_digest: descriptor.projection_digest,
            coverage_digest: descriptor.coverage_digest,
            vector_count: descriptor.vector_count,
            document_count: descriptor.document_count,
            resume_version_count: descriptor.resume_version_count,
            logical_content_digest: descriptor.logical_content_digest,
        }
    }

    pub fn generation(&self) -> (r: &str)
        ensures
            r@ == self@.generation,
    {
        self.generation.as_str()
    }

    pub fn manifest_schema(&self) -> (r: &'static str)
        ensures
            r@ == VECTOR_MANIFEST_SCHEMA_V4@,
    {
        VECTOR_MANIFEST_SCHEMA_V4
    }

    pub fn index_schema(&self) -> (r: &'static str)
        ensures
            r@ == VECTOR_INDEX_SCHEMA_V4@,
    {
        VECTOR_INDEX_SCHEMA_V4
    }

    pub fn mode(&self) -> (r: &VectorSnapshotMode)
        ensures
            mode_view(*r) == self@.mode,
    {
        &self.mode
    }

    pub fn projection_count(&self) -> (r: u64)
        ensures
            r == self@.projection_count,
    {
        self.projection_count
    }

    pub fn projection_digest(&self) -> (r: &SearchProjectionDigest)
        ensures
            r@ == self@.projection_digest,
    {
        &self.projection_digest
    }

    pub fn coverage_digest(&self) -> (r: &SearchProjectionDigest)
        ensures
            r@ == self@.coverage_digest,
    {
        &self.coverage_digest
    }

    pub fn vector_count(&self) -> (r: u64)
        ensures
            r == self@.vector_count,
    {
        self.vector_count
    }

    pub fn document_count(&self) -> (r: u64)
        ensures
            r == self@.document_count,
    {
        self.document_count
    }

    pub fn resume_version_count(&self) -> (r: u64)
        ensures
            r == self@.resume_version_count,
    {
        self.resume_version_count
    }

    pub fn logical_content_digest(&self) -> (r: &ContentDigest)
        ensures
            r@ == self@.logical_content_digest,
    {
        &self.logical_content_digest
    }
}

/// Request to begin a publication on top of an expected visible head.
#[derive(Clone, PartialEq, Eq, Debug)]
pub struct SearchPublicationDraft {
    pub generation: String,
    pub base_generation: Option<String>,
    pub expected_visible_epoch: u64,
    pub classifier_epoch: String,
    pub projection_digest: SearchProjectionDigest,
    pub now: UnixTimestamp,
}

/// Descriptors of the two snapshots built for a publication.
pub struct SearchPublicationValidation<'a> {
    pub generation: &'a str,
    pub fulltext: &'a FullTextSnapshotDescriptor,
    pub vector: &'a VectorSnapshotDescriptor,
    pub now: UnixTimestamp,
}

/// The exact projection mapping and terminal document changes committed
/// with a publication.
#[derive(Clone, Copy)]
pub struct SearchPublicationCommit<'a> {
    pub generation: &'a str,
    pub terminal_documents: &'a [TerminalDocumentUpdate],
    pub projections: &'a [ActiveSearchProjection],
    pub vector_coverage: &'a [ActiveSearchProjection],
    pub now: UnixTimestamp,
}

/// Compare-and-set change of one document that a publication settles.
#[derive(Clone, Debug, PartialEq, Eq)]
pub struct TerminalDocumentUpdate {
    pub document_id: DocumentId,
    pub expected_status: DocumentStatus,
    pub expected_is_deleted: bool,
    pub expected_content_hash: ContentDigest,
    pub terminal_status: DocumentStatus,
    pub terminal_is_deleted: bool,
}

/// Bounds of one publication history prune.
#[derive(Clone, Copy, Debug, PartialEq, Eq, Structural)]
pub struct SearchPublicationPrunePolicy {
    pub retain_ready: usize,
    pub abandoned_updated_before: UnixTimestamp,
    pub max_delete: usize,
}

/// Largest accepted prune or listing bound.
pub const MAX_PUBLICATION_LISTING: usize = 256;

/// Whether a listing or retention bound is within `1..=256`.
pub fn publication_bound_ok(value: usize) -> (r: bool)
    ensures
        r == (1 <= value <= MAX_PUBLICATION_LISTING),
{
    1 <= value && value <= MAX_PUBLICATION_LISTING
}

/// Checks both bounds of a prune policy; either out of `1..=256` is an
/// invalid descriptor.
pub fn validate_prune_policy(policy: &SearchPublicationPrunePolicy) -> (r: Result<(), MetaStoreError>)
    ensures
        r is Ok <==> (1 <= policy.retain_ready <= MAX_PUBLICATION_LISTING && 1 <= policy.max_delete
            <= MAX_PUBLICATION_LISTING),
        r matches Err(e) ==> e == MetaStoreError::SearchPublication(SearchPublicationFailure::InvalidDescriptor),
{
    if !publication_bound_ok(policy.retain_ready) || !publication_bound_ok(policy.max_delete) {
        return Err(publication_error(SearchPublicationFailure::InvalidDescriptor));
    }
    Ok(())
}

/// Journal record of one search publication.
#[derive(Clone, PartialEq, Eq, Debug)]
pub struct SearchPublicationRecord {
    pub generation: String,
    pub base_generation: Option<String>,
    pub expected_visible_epoch: u64,
    pub classifier_epoch: String,
    pub projection_digest: SearchProjectionDigest,
    pub publication_fingerprint: Option<ContentDigest>,
    pub state: SearchPublicationState,
    pub fulltext: Option<FullTextSnapshotDescriptor>,
    pub vector: Option<VectorSnapshotDescriptor>,
    pub created_at: UnixTimestamp,
    pub updated_at: UnixTimestamp,
}

} // verus!
