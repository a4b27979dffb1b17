use vstd::prelude::*;
use vstd::utf8::*;
use crate::descriptor_records::{digest_ok, opt_cd_view, opt_digest_ok, opt_string_view};
use crate::digest::{digest_text, ContentDigest};
use crate::error::{publication_error, MetaStoreError, SearchPublicationFailure};
use crate::fingerprint::{current_parts, fingerprint_encoding, search_publication_fingerprint};
use crate::ids::UnixTimestamp;
use crate::projection_digest::SearchProjectionDigest;
use crate::publication_model::{
    publication_state_from_label, EnabledVectorSnapshotDescriptor, FullTextSnapshotDescriptor,
    FullTextView, SearchPublicationRecord, SearchPublicationState, SearchPublicationValidation,
    VectorModeView, VectorSnapshotDescriptor, VectorView, FULLTEXT_INDEX_SCHEMA_V3,
    FULLTEXT_MANIFEST_SCHEMA_V3, VECTOR_INDEX_SCHEMA_V4, VECTOR_MANIFEST_SCHEMA_V4,
};
use crate::publication_validation::{descriptor_failure, validate_descriptors};
use crate::text::text_equal;

verus! {

/// A publication journal row as stored; columns that may be NULL are
/// optional.
#[derive(Clone, Debug, PartialEq, Eq)]
pub struct PublicationRow {
    pub generation: String,
    pub base_generation: Option<String>,
    pub expected_visible_epoch: i64,
    pub classifier_epoch: String,
    pub projection_digest: String,
    pub publication_fingerprint: Option<String>,
    pub state: String,
    pub fulltext_generation: Option<String>,
    pub fulltext_manifest_schema: Option<String>,
    pub fulltext_index_schema: Option<String>,
    pub fulltext_document_count: Option<i64>,
    pub fulltext_projection_digest: Option<String>,
    pub fulltext_logical_content_digest: Option<String>,
    pub vector_generation: Option<String>,
    pub vector_manifest_schema: Option<String>,
    pub vector_index_schema: Option<String>,
    pub vector_mode: Option<String>,
    pub vector_model_id: Option<String>,
    pub vector_dimension: Option<i64>,
    pub vector_projection_count: Option<i64>,
    pub vector_coverage_digest: Option<String>,
    pub vector_count: Option<i64>,
    pub vector_document_count: Option<i64>,
    pub vector_resume_version_count: Option<i64>,
    pub vector_projection_digest: Option<String>,
    pub vector_logical_content_digest: Option<String>,
    pub created_at_seconds: i64,
    pub updated_at_seconds: i64,
}

/// Error of reading a NULL column as a value.
pub open spec fn null_column() -> MetaStoreError {
    MetaStoreError::Storage
}

/// Error of a stored value that breaks the publication rules.
pub open spec fn invalid_persisted() -> MetaStoreError {
    MetaStoreError::SearchPublication(SearchPublicationFailure::InvalidPersistedState)
}

/// The full-text descriptor a row holds, or the error of reading it: a
/// required column that is NULL is a storage error; a schema other than the
/// current one, a negative count or a malformed digest is invalid persisted
/// state.
pub open spec fn fulltext_read(row: PublicationRow) -> Result<Option<FullTextView>, MetaStoreError> {
    match row.fulltext_generation {
        None => Ok(None),
        Some(generation) => if row.fulltext_manifest_schema is None
            || row.fulltext_index_schema is None {
            Err(null_column())
        } else if row.fulltext_manifest_schema.unwrap()@ != FULLTEXT_MANIFEST_SCHEMA_V3@
            || row.fulltext_index_schema.unwrap()@ != FULLTEXT_INDEX_SCHEMA_V3@ {
            Err(invalid_persisted())
        } else if row.fulltext_document_count is None {
            Err(null_column())
        } else if row.fulltext_document_count.unwrap() < 0 {
            Err(invalid_persisted())
        } else if row.fulltext_projection_digest is None {
            Err(null_column())
        } else if !digest_ok(row.fulltext_projection_digest.unwrap()@) {
            Err(invalid_persisted())
        } else if row.fulltext_logical_content_digest is None {
            Err(null_column())
        } else if !digest_ok(row.fulltext_logical_content_digest.unwrap()@) {
            Err(invalid_persisted())
        } else {
            Ok(
                Some(
                    FullTextView {
                        generation: generation@,
                        document_count: row.fulltext_document_count.unwrap() as u64,
                        projection_digest: row.fulltext_projection_digest.unwrap()@,
                        logical_content_digest: row.fulltext_logical_content_digest.unwrap()@,
                    },
                ),
            )
        },
    }
}

/// A stored count column: NULL is a storage error, a negative count invalid
/// persisted state.
pub open spec fn count_read(value: Option<i64>) -> Result<u64, MetaStoreError> {
    match value {
        None => Err(null_column()),
        Some(v) => if v < 0 {
            Err(invalid_persisted())
        } else {
            Ok(v as u64)
        },
    }
}

/// A stored digest column: NULL is a storage error, malformed text invalid
/// persisted state.
pub open spec fn digest_read(value: Option<String>) -> Result<Seq<char>, MetaStoreError> {
    match value {
        None => Err(null_column()),
        Some(v) => if !digest_ok(v@) {
            Err(invalid_persisted())
        } else {
            Ok(v@)
        },
    }
}

/// The vector mode part of a row, given its vector counts.
pub open spec fn vector_mode_read(
    row: PublicationRow,
    vector_count: u64,
    document_count: u64,
    resume_version_count: u64,
) -> Result<VectorModeView, MetaStoreError> {
    match row.vector_mode {
        None => Err(null_column()),
        Some(mode) => if mode@ == "disabled"@ && vector_count == 0 && document_count == 0
            && resume_version_count == 0 {
            if row.vector_model_id is Some || row.vector_dimension is Some {
                Err(invalid_persisted())
            } else {
                Ok(VectorModeView::Disabled)
            }
        } else if mode@ == "enabled"@ {
            if row.vector_model_id is None || row.vector_dimension is None {
                Err(null_column())
            } else if !(0 <= row.vector_dimension.unwrap() <= u32::MAX) {
                Err(invalid_persisted())
            } else {
                Ok(
                    VectorModeView::Enabled {
                        model_id: row.vector_model_id.unwrap()@,
                        dimension: row.vector_dimension.unwrap() as u32,
                    },
                )
            }
        } else {
            Err(invalid_persisted())
        },
    }
}

/// The vector descriptor a row holds, or the error of reading it, column by
/// column in storage order.
pub open spec fn vector_read(row: PublicationRow) -> Result<Option<VectorView>, MetaStoreError> {
    match row.vector_generation {
        None => Ok(None),
        Some(generation) => if row.vector_manifest_schema is None || row.vector_index_schema
            is None {
            Err(null_column())
        } else if row.vector_manifest_schema.unwrap()@ != VECTOR_MANIFEST_SCHEMA_V4@
            || row.vector_index_schema.unwrap()@ != VECTOR_INDEX_SCHEMA_V4@ {
            Err(invalid_persisted())
        } else if count_read(row.vector_projection_count) is Err {
            Err(count_read(row.vector_projection_count)->Err_0)
        } else if digest_read(row.vector_coverage_digest) is Err {
            Err(digest_read(row.vector_coverage_digest)->Err_0)
        } else if count_read(row.vector_count) is Err {
            Err(count_read(row.vector_count)->Err_0)
        } else if count_read(row.vector_document_count) is Err {
            Err(count_read(row.vector_document_count)->Err_0)
        } else if count_read(row.vector_resume_version_count) is Err {
            Err(count_read(row.vector_resume_version_count)->Err_0)
        } else if digest_read(row.vector_projection_digest) is Err {
            Err(digest_read(row.vector_projection_digest)->Err_0)
        } else if digest_read(row.vector_logical_content_digest) is Err {
            Err(digest_read(row.vector_logical_content_digest)->Err_0)
        } else {
            let vector_count = count_read(row.vector_count)->Ok_0;
            let document_count = count_read(row.vector_document_count)->Ok_0;
            let resume_version_count = count_read(row.vector_resume_version_count)->Ok_0;
            match vector_mode_read(row, vector_count, document_count, resume_version_count) {
                Err(e) => Err(e),
                Ok(mode) => Ok(
                    Some(
                        VectorView {
                            generation: generation@,
                            mode,
                            projection_count: count_read(row.vector_projection_count)->Ok_0,
                            projection_digest: digest_read(row.vector_projection_digest)->Ok_0,
                            coverage_digest: digest_read(row.vector_coverage_digest)->Ok_0,
                            vector_count,
                            document_count,
                            resume_version_count,
                            logical_content_digest: digest_read(
                                row.vector_logical_content_digest,
                            )->Ok_0,
                        },
                    ),
                ),
            }
        },
    }
}

/// The error of reading a publication row, if any. After the state and both
/// descriptors, the row must hold both descriptors and a fingerprint or none
/// of them, none while preparing and both once validated or ready; a row
/// with descriptors must pass descriptor validation, repeat its projection
/// digest in the full-text descriptor and carry the fingerprint of its
/// descriptors; the expected epoch must not be negative.
pub open spec fn publication_read_error(row: PublicationRow) -> Option<MetaStoreError> {
    let state = publication_state_from_label(row.state@);
    if state is None {
        Some(invalid_persisted())
    } else if fulltext_read(row) is Err {
        Some(fulltext_read(row)->Err_0)
    } else if vector_read(row) is Err {
        Some(vector_read(row)->Err_0)
    } else {
        let ft = fulltext_read(row)->Ok_0;
        let v = vector_read(row)->Ok_0;
        let s = state.unwrap();
        if !opt_digest_ok(row.publication_fingerprint) {
            Some(invalid_persisted())
        } else if (ft is Some) != (v is Some) || (row.publication_fingerprint is Some) != (ft is Some)
            || (s == SearchPublicationState::Preparing && ft is Some) || ((s
            == SearchPublicationState::Validated || s == SearchPublicationState::Ready)
            && ft is None) {
            Some(invalid_persisted())
        } else if !digest_ok(row.projection_digest@) {
            Some(invalid_persisted())
        } else if ft is Some && (descriptor_failure(row.generation@, ft.unwrap(), v.unwrap()) is Some
            || row.projection_digest@ != ft.unwrap().projection_digest || digest_text(
            fingerprint_encoding(
                current_parts(row.classifier_epoch@, row.projection_digest@, ft.unwrap(), v.unwrap()),
            ),
        ) != encode_utf8(row.publication_fingerprint.unwrap()@)) {
            Some(invalid_persisted())
        } else if row.expected_visible_epoch < 0 {
            Some(invalid_persisted())
        } else {
            None
        }
    }
}

/// The record read from an accepted row carries the row's values.
pub open spec fn publication_matches_row(p: SearchPublicationRecord, row: PublicationRow) -> bool {
    &&& p.generation@ == row.generation@
    &&& opt_string_view(p.base_generation) == opt_string_view(row.base_generation)
    &&& p.expected_visible_epoch == row.expected_visible_epoch
    &&& p.classifier_epoch@ == row.classifier_epoch@
    &&& p.projection_digest@ == row.projection_digest@
    &&& opt_cd_view(p.publication_fingerprint) == opt_string_view(row.publication_fingerprint)
    &&& Some(p.state) == publication_state_from_label(row.state@)
    &&& match p.fulltext {
        Some(f) => fulltext_read(row) == Ok::<Option<FullTextView>, MetaStoreError>(Some(f@)),
        None => fulltext_read(row) == Ok::<Option<FullTextView>, MetaStoreError>(None),
    }
    &&& match p.vector {
        Some(v) => vector_read(row) == Ok::<Option<VectorView>, MetaStoreError>(Some(v@)),
        None => vector_read(row) == Ok::<Option<VectorView>, MetaStoreError>(None),
    }
    &&& p.created_at.seconds == row.created_at_seconds
    &&& p.updated_at.seconds == row.updated_at_seconds
}

fn required_count(value: Option<i64>) -> (r: Result<u64, MetaStoreError>)
    ensures
        r == count_read(value),
{
    match value {
        None => Err(MetaStoreError::Storage),
        Some(v) => if v < 0 {
            Err(publication_error(SearchPublicationFailure::InvalidPersistedState))
        } else {
            Ok(v as u64)
        },
    }
}

fn required_projection_digest(value: &Option<String>) -> (r: Result<
    SearchProjectionDigest,
    MetaStoreError,
>)
    ensures
        match r {
            Ok(d) => digest_read(*value) == Ok::<Seq<char>, MetaStoreError>(d@),
            Err(e) => digest_read(*value) == Err::<Seq<char>, MetaStoreError>(e),
        },
{
    match value {
        None => Err(MetaStoreError::Storage),
        Some(v) => match SearchProjectionDigest::parse(v.as_str()) {
            Some(d) => Ok(d),
            None => Err(publication_error(SearchPublicationFailure::InvalidPersistedState)),
        },
    }
}

fn required_content_digest(value: &Option<String>) -> (r: Result<ContentDigest, MetaStoreError>)
    ensures
        match r {
            Ok(d) => digest_read(*value) == Ok::<Seq<char>, MetaStoreError>(d@),
            Err(e) => digest_read(*value) == Err::<Seq<char>, MetaStoreError>(e),
        },
{
    match value {
        None => Err(MetaStoreError::Storage),
        Some(v) => match ContentDigest::parse(v.as_str()) {
            Some(d) => Ok(d),
            None => Err(publication_error(SearchPublicationFailure::InvalidPersistedState)),
        },
    }
}

fn required_text_is(value: &Option<String>, expected: &str) -> (r: Result<bool, MetaStoreError>)
    ensures
        match value {
            None => r == Err::<bool, MetaStoreError>(MetaStoreError::Storage),
            Some(v) => r == Ok::<bool, MetaStoreError>(v@ == expected@),
        },
{
    match value {
        None => Err(MetaStoreError::Storage),
        Some(v) => Ok(text_equal(v.as_str(), expected)),
    }
}

/// Reads the full-text descriptor of a row.
pub fn read_fulltext_descriptor(row: &PublicationRow) -> (r: Result<
    Option<FullTextSnapshotDescriptor>,
    MetaStoreError,
>)
    ensures
        match r {
            Ok(Some(f)) => fulltext_read(*row) == Ok::<Option<FullTextView>, MetaStoreError>(
                Some(f@),
            ),
            Ok(None) => fulltext_read(*row) == Ok::<Option<FullTextView>, MetaStoreError>(None),
            Err(e) => fulltext_read(*row) == Err::<Option<FullTextView>, MetaStoreError>(e),
        },
{
    let generation = match &row.fulltext_generation {
        None => return Ok(None),
        Some(g) => g,
    };
    if row.fulltext_manifest_schema.is_none() || row.fulltext_index_schema.is_none() {
        return Err(MetaStoreError::Storage);
    }
    let manifest_ok = required_text_is(&row.fulltext_manifest_schema, FULLTEXT_MANIFEST_SCHEMA_V3)?;
    let index_ok = required_text_is(&row.fulltext_index_schema, FULLTEXT_INDEX_SCHEMA_V3)?;
    if !manifest_ok || !index_ok {
        return Err(publication_error(SearchPublicationFailure::InvalidPersistedState));
    }
    let document_count = required_count(row.fulltext_document_count)?;
    let projection_digest = required_projection_digest(&row.fulltext_projection_digest)?;
    let logical_content_digest = required_content_digest(&row.fulltext_logical_content_digest)?;
    Ok(
        Some(
            FullTextSnapshotDescriptor::new(
                generation.clone(),
                document_count,
                projection_digest,
                logical_content_digest,
            ),
        ),
    )
}

/// Reads the vector descriptor of a row.
pub fn read_vector_descriptor(row: &PublicationRow) -> (r: Result<
    Option<VectorSnapshotDescriptor>,
    MetaStoreError,
>)
    ensures
        match r {
            Ok(Some(v)) => vector_read(*row) == Ok::<Option<VectorView>, MetaStoreError>(Some(v@)),
            Ok(None) => vector_read(*row) == Ok::<Option<VectorView>, MetaStoreError>(None),
            Err(e) => vector_read(*row) == Err::<Option<VectorView>, MetaStoreError>(e),
        },
{
    let generation = match &row.vector_generation {
        None => return Ok(None),
        Some(g) => g,
    };
    if row.vector_manifest_schema.is_none() || row.vector_index_schema.is_none() {
        return Err(MetaStoreError::Storage);
    }
    let manifest_ok = required_text_is(&row.vector_manifest_schema, VECTOR_MANIFEST_SCHEMA_V4)?;
    let index_ok = required_text_is(&row.vector_index_schema, VECTOR_INDEX_SCHEMA_V4)?;
    if !manifest_ok || !index_ok {
        return Err(publication_error(SearchPublicationFailure::InvalidPersistedState));
    }
    let projection_count = required_count(row.vector_projection_count)?;
    let coverage_digest = required_projection_digest(&row.vector_coverage_digest)?;
    let vector_count = required_count(row.vector_count)?;
    let document_count = required_count(row.vector_document_count)?;
    let resume_version_count = required_count(row.vector_resume_version_count)?;
    let projection_digest = required_projection_digest(&row.vector_projection_digest)?;
    let logical_content_digest = required_content_digest(&row.vector_logical_content_digest)?;
    let mode = match &row.vector_mode {
        None => return Err(MetaStoreError::Storage),
        Some(m) => m.as_str(),
    };
    if text_equal(mode, "disabled") && vector_count == 0 && document_count == 0
        && resume_version_count == 0 {
        if row.vector_model_id.is_some() || row.vector_dimension.is_some() {
            return Err(publication_error(SearchPublicationFailure::InvalidPersistedState));
        }
        Ok(
            Some(
                VectorSnapshotDescriptor::disabled(
                    generation.clone(),
                    projection_count,
                    projection_digest,
                    coverage_digest,
                    logical_content_digest,
                ),
            ),
        )
    } else if text_equal(mode, "enabled") {
        let model_id = match &row.vector_model_id {
            None => return Err(MetaStoreError::Storage),
            Some(m) => m.clone(),
        };
        let dimension = match row.vector_dimension {
            None => return Err(MetaStoreError::Storage),
            Some(d) => d,
        };
        if !(0 <= dimension && dimension <= 4294967295) {
            return Err(publication_error(SearchPublicationFailure::InvalidPersistedState));
        }
        Ok(
            Some(
                VectorSnapshotDescriptor::enabled(
                    EnabledVectorSnapshotDescriptor {
                        generation: generation.clone(),
                        model_id,
                        dimension: dimension as u32,
                        projection_count,
                        projection_digest,
                        coverage_digest,
                        vector_count,
                        document_count,
                        resume_version_count,
                        logical_content_digest,
                    },
                ),
            ),
        )
    } else {
        proof {
            reveal_strlit("disabled");
            reveal_strlit("enabled");
        }
        Err(publication_error(SearchPublicationFailure::InvalidPersistedState))
    }
}

fn clone_opt_string(value: &Option<String>) -> (r: Option<String>)
    ensures
        r == *value,
{
    match value {
        Some(s) => Some(s.clone()),
        None => None,
    }
}

/// Reads one publication journal row.
pub fn read_publication(row: &PublicationRow) -> (r: Result<SearchPublicationRecord, MetaStoreError>)
    ensures
        match r {
            Ok(p) => publication_read_error(*row) is None && publication_matches_row(p, *row),
            Err(e) => publication_read_error(*row) == Some(e),
        },
{
    let state = SearchPublicationState::parse(row.state.as_str())?;
    let fulltext = read_fulltext_descriptor(row)?;
    let vector = read_vector_descriptor(row)?;
    let persisted_fingerprint = match &row.publication_fingerprint {
        Some(v) => match ContentDigest::parse(v.as_str()) {
            Some(d) => Some(d),
            None => {
                return Err(publication_error(SearchPublicationFailure::InvalidPersistedState));
            },
        },
        None => None,
    };
    let preparing = match state {
        SearchPublicationState::Preparing => true,
        _ => false,
    };
    let published = match state {
        SearchPublicationState::Validated | SearchPublicationState::Ready => true,
        _ => false,
    };
    if fulltext.is_some() != vector.is_some() || persisted_fingerprint.is_some()
        != fulltext.is_some() || (preparing && fulltext.is_some()) || (published
        && fulltext.is_none()) {
        return Err(publication_error(SearchPublicationFailure::InvalidPersistedState));
    }
    let projection_digest = match SearchProjectionDigest::parse(row.projection_digest.as_str()) {
        Some(d) => d,
        None => return Err(publication_error(SearchPublicationFailure::InvalidPersistedState)),
    };
    if let (Some(persisted), Some(ft), Some(v)) = (&persisted_fingerprint, &fulltext, &vector) {
        let checked = validate_descriptors(
            &SearchPublicationValidation {
                generation: row.generation.as_str(),
                fulltext: ft,
                vector: v,
                now: UnixTimestamp::from_unix_seconds(0),
            },
        );
        if checked.is_err() {
            return Err(publication_error(SearchPublicationFailure::InvalidPersistedState));
        }
        if !projection_digest.same_as(ft.projection_digest()) {
            return Err(publication_error(SearchPublicationFailure::InvalidPersistedState));
        }
        let canonical = search_publication_fingerprint(
            row.classifier_epoch.as_str(),
            &projection_digest,
            ft,
            v,
        );
        proof {
            encode_utf8_decode_utf8(canonical@);
            encode_utf8_decode_utf8(persisted@);
        }
        if !persisted.same_as(&canonical) {
            return Err(publication_error(SearchPublicationFailure::InvalidPersistedState));
        }
    }
    if row.expected_visible_epoch < 0 {
        return Err(publication_error(SearchPublicationFailure::InvalidPersistedState));
    }
    Ok(
        SearchPublicationRecord {
            generation: row.generation.clone(),
            base_generation: clone_opt_string(&row.base_generation),
            expected_visible_epoch: row.expected_visible_epoch as u64,
            classifier_epoch: row.classifier_epoch.clone(),
            projection_digest,
            publication_fingerprint: persisted_fingerprint,
            state,
            fulltext,
            vector,
            created_at: UnixTimestamp::from_unix_seconds(row.created_at_seconds),
            updated_at: UnixTimestamp::from_unix_seconds(row.updated_at_seconds),
        },
    )
}


/// Whether a journal row holds the columns of a validated publication: its
/// names and digests, the state label `validated`, the current schema names
/// and the descriptors' counts, digests and vector mode.
pub open spec fn row_holds_validated(
    row: PublicationRow,
    generation: Seq<char>,
    classifier_epoch: Seq<char>,
    projection_digest: Seq<char>,
    fingerprint: Seq<char>,
    ft: FullTextView,
    v: VectorView,
) -> bool {
    &&& row.generation@ == generation
    &&& row.classifier_epoch@ == classifier_epoch
    &&& row.projection_digest@ == projection_digest
    &&& opt_string_view(row.publication_fingerprint) == Some(fingerprint)
    &&& row.state@ == "validated"@
    &&& opt_string_view(row.fulltext_generation) == Some(ft.generation)
    &&& opt_string_view(row.fulltext_manifest_schema) == Some(FULLTEXT_MANIFEST_SCHEMA_V3@)
    &&& opt_string_view(row.fulltext_index_schema) == Some(FULLTEXT_INDEX_SCHEMA_V3@)
    &&& row.fulltext_document_count matches Some(c) && c as int == ft.document_count as int
    &&& opt_string_view(row.fulltext_projection_digest) == Some(ft.projection_digest)
    &&& opt_string_view(row.fulltext_logical_content_digest) == Some(ft.logical_content_digest)
    &&& opt_string_view(row.vector_generation) == Some(v.generation)
    &&& opt_string_view(row.vector_manifest_schema) == Some(VECTOR_MANIFEST_SCHEMA_V4@)
    &&& opt_string_view(row.vector_index_schema) == Some(VECTOR_INDEX_SCHEMA_V4@)
    &&& match v.mode {
        VectorModeView::Disabled => {
            &&& opt_string_view(row.vector_mode) == Some("disabled"@)
            &&& row.vector_model_id is None
            &&& row.vector_dimension is None
        },
        VectorModeView::Enabled { model_id, dimension } => {
            &&& opt_string_view(row.vector_mode) == Some("enabled"@)
            &&& opt_string_view(row.vector_model_id) == Some(model_id)
            &&& row.vector_dimension == Some(dimension as i64)
        },
    }
    &&& row.vector_projection_count matches Some(c) && c as int == v.projection_count as int
    &&& opt_string_view(row.vector_coverage_digest) == Some(v.coverage_digest)
    &&& row.vector_count matches Some(c) && c as int == v.vector_count as int
    &&& row.vector_document_count matches Some(c) && c as int == v.document_count as int
    &&& row.vector_resume_version_count matches Some(c) && c as int
        == v.resume_version_count as int
    &&& opt_string_view(row.vector_projection_digest) == Some(v.projection_digest)
    &&& opt_string_view(row.vector_logical_content_digest) == Some(v.logical_content_digest)
}

/// A validated publication reads back as written: a row holding the columns
/// of descriptors that passed validation, with the projection digest they
/// name and the fingerprint computed from them, is accepted and gives back
/// exactly those descriptors. Digests are taken well formed, as every digest
/// value is, and the stored epoch not negative, as the store writes it.
pub proof fn validated_publication_reads_back(
    row: PublicationRow,
    classifier_epoch: Seq<char>,
    fingerprint: Seq<char>,
    ft: FullTextView,
    v: VectorView,
)
    requires
        descriptor_failure(row.generation@, ft, v) is None,
        row_holds_validated(
            row,
            row.generation@,
            classifier_epoch,
            ft.projection_digest,
            fingerprint,
            ft,
            v,
        ),
        encode_utf8(fingerprint) == digest_text(
            fingerprint_encoding(current_parts(classifier_epoch, ft.projection_digest, ft, v)),
        ),
        digest_ok(fingerprint),
        digest_ok(ft.projection_digest),
        digest_ok(ft.logical_content_digest),
        digest_ok(v.coverage_digest),
        digest_ok(v.logical_content_digest),
        row.expected_visible_epoch >= 0,
    ensures
        publication_read_error(row) is None,
        fulltext_read(row) == Ok::<Option<FullTextView>, MetaStoreError>(Some(ft)),
        vector_read(row) == Ok::<Option<VectorView>, MetaStoreError>(Some(v)),
        publication_state_from_label(row.state@) == Some(SearchPublicationState::Validated),
{
    reveal_strlit("disabled");
    reveal_strlit("enabled");
    reveal_strlit("validated");
    assert("disabled"@.len() == 8 && "enabled"@.len() == 7);
    crate::publication_model::publication_state_label_round_trip(SearchPublicationState::Validated);
    assert(vector_read(row) == Ok::<Option<VectorView>, MetaStoreError>(Some(v)));
}

} // verus!
