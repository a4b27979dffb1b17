use vstd::prelude::*;
use vstd::utf8::*;
use crate::digest::{digest_text, ContentDigest};
use crate::error::MetaStoreError;
use crate::fingerprint::{
    current_parts, fingerprint_encoding, fingerprint_of_parts, search_publication_fingerprint,
    FingerprintParts, FingerprintPartsView,
};
use crate::publication_model::SearchPublicationRecord;
use crate::projection_digest::SearchProjectionDigest;
use crate::publication_validation::{
    empty_projection_digest, empty_projection_digest_value, is_white_space, white_space,
};
use crate::text::{char_count_fits, text_equal};

verus! {

/// Full-text manifest schema of publications written before the current one.
pub const LEGACY_FULLTEXT_MANIFEST: &'static str = "fulltext.snapshot.v2";
/// Full-text index schema of publications written before the current one.
pub const LEGACY_FULLTEXT_INDEX: &'static str = "tantivy.fulltext.v2";
/// Vector manifest schema of publications written before the current one.
pub const LEGACY_VECTOR_MANIFEST: &'static str = "vector.snapshot.v3";
/// Vector index schema of publications written before the current one.
pub const LEGACY_VECTOR_INDEX: &'static str = "hnsw-vector.v3";
/// Full-text manifest schema of current publications.
pub const CURRENT_FULLTEXT_MANIFEST: &'static str = "fulltext.snapshot.v3";
/// Full-text index schema of current publications.
pub const CURRENT_FULLTEXT_INDEX: &'static str = "tantivy.fulltext.v3";
/// Vector manifest schema of current publications.
pub const CURRENT_VECTOR_MANIFEST: &'static str = "vector.snapshot.v4";
/// Vector index schema of current publications.
pub const CURRENT_VECTOR_INDEX: &'static str = "hnsw-vector.v4";

/// Which descriptor schemas a stored publication uses.
#[derive(Clone, Copy, Debug, PartialEq, Eq, Structural)]
pub enum DescriptorContract {
    /// No descriptor was recorded.
    Empty,
    Legacy,
    Current,
}

/// The view of an optional text.
pub open spec fn opt_view(value: Option<&str>) -> Option<Seq<char>> {
    match value {
        Some(s) => Some(s@),
        None => None,
    }
}

/// The contract of four stored schema names: all absent, all legacy or all
/// current; any other mix is refused.
pub open spec fn contract_of_schemas(
    fulltext_manifest: Option<Seq<char>>,
    fulltext_index: Option<Seq<char>>,
    vector_manifest: Option<Seq<char>>,
    vector_index: Option<Seq<char>>,
) -> Option<DescriptorContract> {
    if fulltext_manifest is None && fulltext_index is None && vector_manifest is None
        && vector_index is None {
        Some(DescriptorContract::Empty)
    } else if fulltext_manifest == Some(LEGACY_FULLTEXT_MANIFEST@) && fulltext_index == Some(
        LEGACY_FULLTEXT_INDEX@,
    ) && vector_manifest == Some(LEGACY_VECTOR_MANIFEST@) && vector_index == Some(
        LEGACY_VECTOR_INDEX@,
    ) {
        Some(DescriptorContract::Legacy)
    } else if fulltext_manifest == Some(CURRENT_FULLTEXT_MANIFEST@) && fulltext_index == Some(
        CURRENT_FULLTEXT_INDEX@,
    ) && vector_manifest == Some(CURRENT_VECTOR_MANIFEST@) && vector_index == Some(
        CURRENT_VECTOR_INDEX@,
    ) {
        Some(DescriptorContract::Current)
    } else {
        None
    }
}

fn opt_text_is(value: Option<&str>, expected: &str) -> (r: bool)
    ensures
        r == (opt_view(value) == Some(expected@)),
{
    match value {
        Some(v) => text_equal(v, expected),
        None => false,
    }
}

/// Classifies the four stored schema names of a publication.
pub fn descriptor_contract(
    fulltext_manifest: Option<&str>,
    fulltext_index: Option<&str>,
    vector_manifest: Option<&str>,
    vector_index: Option<&str>,
) -> (r: Result<DescriptorContract, MetaStoreError>)
    ensures
        match contract_of_schemas(
            opt_view(fulltext_manifest),
            opt_view(fulltext_index),
            opt_view(vector_manifest),
            opt_view(vector_index),
        ) {
            Some(c) => r == Ok::<DescriptorContract, MetaStoreError>(c),
            None => r == Err::<DescriptorContract, MetaStoreError>(
                MetaStoreError::StorageInvariant,
            ),
        },
{
    if fulltext_manifest.is_none() && fulltext_index.is_none() && vector_manifest.is_none()
        && vector_index.is_none() {
        Ok(DescriptorContract::Empty)
    } else if opt_text_is(fulltext_manifest, LEGACY_FULLTEXT_MANIFEST) && opt_text_is(
        fulltext_index,
        LEGACY_FULLTEXT_INDEX,
    ) && opt_text_is(vector_manifest, LEGACY_VECTOR_MANIFEST) && opt_text_is(
        vector_index,
        LEGACY_VECTOR_INDEX,
    ) {
        Ok(DescriptorContract::Legacy)
    } else if opt_text_is(fulltext_manifest, CURRENT_FULLTEXT_MANIFEST) && opt_text_is(
        fulltext_index,
        CURRENT_FULLTEXT_INDEX,
    ) && opt_text_is(vector_manifest, CURRENT_VECTOR_MANIFEST) && opt_text_is(
        vector_index,
        CURRENT_VECTOR_INDEX,
    ) {
        Ok(DescriptorContract::Current)
    } else {
        Err(MetaStoreError::StorageInvariant)
    }
}

/// A stored publication row as the descriptor audit reads it.
#[derive(Clone, Debug, PartialEq, Eq)]
pub struct DescriptorRow {
    pub generation: String,
    pub expected_visible_epoch: i64,
    pub classifier_epoch: String,
    pub projection_digest: String,
    pub publication_fingerprint: Option<String>,
    pub state: String,
    pub fulltext_generation: Option<String>,
    pub fulltext_manifest_schema: Option<String>,
    pub fulltext_index_schema: Option<String>,
    pub fulltext_document_count: Option<i64>,
    pub fulltext_projection_digest: Option<String>,
    pub fulltext_logical_content_digest: Option<String>,
    pub vector_generation: Option<String>,
    pub vector_manifest_schema: Option<String>,
    pub vector_index_schema: Option<String>,
    pub vector_mode: Option<String>,
    pub vector_model_id: Option<String>,
    pub vector_dimension: Option<i64>,
    pub vector_projection_count: Option<i64>,
    pub vector_coverage_digest: Option<String>,
    pub vector_count: Option<i64>,
    pub vector_document_count: Option<i64>,
    pub vector_resume_version_count: Option<i64>,
    pub vector_projection_digest: Option<String>,
    pub vector_logical_content_digest: Option<String>,
}

/// The descriptor fields of one stored publication, parsed.
#[derive(Clone, Debug, PartialEq, Eq)]
pub struct PublicationDescriptorRecord {
    pub generation: String,
    pub expected_visible_epoch: u64,
    pub classifier_epoch: String,
    pub projection_digest: SearchProjectionDigest,
    pub publication_fingerprint: Option<ContentDigest>,
    pub state: String,
    pub fulltext_generation: Option<String>,
    pub fulltext_document_count: Option<u64>,
    pub fulltext_projection_digest: Option<SearchProjectionDigest>,
    pub fulltext_logical_content_digest: Option<ContentDigest>,
    pub vector_generation: Option<String>,
    pub vector_mode: Option<String>,
    pub vector_model_id: Option<String>,
    pub vector_dimension: Option<u32>,
    pub vector_projection_count: Option<u64>,
    pub vector_coverage_digest: Option<SearchProjectionDigest>,
    pub vector_count: Option<u64>,
    pub vector_document_count: Option<u64>,
    pub vector_resume_version_count: Option<u64>,
    pub vector_projection_digest: Option<SearchProjectionDigest>,
    pub vector_logical_content_digest: Option<ContentDigest>,
    pub contract: DescriptorContract,
}

/// Stored digest text is well formed.
pub open spec fn digest_ok(text: Seq<char>) -> bool {
    crate::digest::valid_digest_text(encode_utf8(text))
}

/// An optional stored digest is absent or well formed.
pub open spec fn opt_digest_ok(text: Option<String>) -> bool {
    match text {
        Some(t) => digest_ok(t@),
        None => true,
    }
}

/// An optional stored count is absent or not negative.
pub open spec fn opt_count_ok(value: Option<i64>) -> bool {
    match value {
        Some(v) => v >= 0,
        None => true,
    }
}

/// A stored row can be read as a descriptor record: known schema names,
/// counts that are not negative, a dimension that fits 32 bits and well
/// formed digests.
pub open spec fn descriptor_row_ok(row: DescriptorRow) -> bool {
    &&& contract_of_schemas(
        opt_string_view(row.fulltext_manifest_schema),
        opt_string_view(row.fulltext_index_schema),
        opt_string_view(row.vector_manifest_schema),
        opt_string_view(row.vector_index_schema),
    ) is Some
    &&& row.expected_visible_epoch >= 0
    &&& digest_ok(row.projection_digest@)
    &&& opt_digest_ok(row.publication_fingerprint)
    &&& opt_count_ok(row.fulltext_document_count)
    &&& opt_digest_ok(row.fulltext_projection_digest)
    &&& opt_digest_ok(row.fulltext_logical_content_digest)
    &&& match row.vector_dimension {
        Some(d) => 0 <= d <= u32::MAX,
        None => true,
    }
    &&& opt_count_ok(row.vector_projection_count)
    &&& opt_digest_ok(row.vector_coverage_digest)
    &&& opt_count_ok(row.vector_count)
    &&& opt_count_ok(row.vector_document_count)
    &&& opt_count_ok(row.vector_resume_version_count)
    &&& opt_digest_ok(row.vector_projection_digest)
    &&& opt_digest_ok(row.vector_logical_content_digest)
}

/// The view of an optional string.
pub open spec fn opt_string_view(value: Option<String>) -> Option<Seq<char>> {
    match value {
        Some(s) => Some(s@),
        None => None,
    }
}

/// The view of an optional projection digest.
pub open spec fn opt_pd_view(value: Option<SearchProjectionDigest>) -> Option<Seq<char>> {
    match value {
        Some(d) => Some(d@),
        None => None,
    }
}

/// The view of an optional content digest.
pub open spec fn opt_cd_view(value: Option<ContentDigest>) -> Option<Seq<char>> {
    match value {
        Some(d) => Some(d@),
        None => None,
    }
}

/// An optional stored count, as a count.
pub open spec fn opt_count(value: Option<i64>) -> Option<u64> {
    match value {
        Some(v) => Some(v as u64),
        None => None,
    }
}

/// The record read from a well-formed row carries the row's values.
pub open spec fn record_matches_row(record: PublicationDescriptorRecord, row: DescriptorRow) -> bool {
    &&& record.generation@ == row.generation@
    &&& record.expected_visible_epoch == row.expected_visible_epoch
    &&& record.classifier_epoch@ == row.classifier_epoch@
    &&& record.projection_digest@ == row.projection_digest@
    &&& opt_cd_view(record.publication_fingerprint) == opt_string_view(row.publication_fingerprint)
    &&& record.state@ == row.state@
    &&& opt_string_view(record.fulltext_generation) == opt_string_view(row.fulltext_generation)
    &&& record.fulltext_document_count == opt_count(row.fulltext_document_count)
    &&& opt_pd_view(record.fulltext_projection_digest) == opt_string_view(
        row.fulltext_projection_digest,
    )
    &&& opt_cd_view(record.fulltext_logical_content_digest) == opt_string_view(
        row.fulltext_logical_content_digest,
    )
    &&& opt_string_view(record.vector_generation) == opt_string_view(row.vector_generation)
    &&& opt_string_view(record.vector_mode) == opt_string_view(row.vector_mode)
    &&& opt_string_view(record.vector_model_id) == opt_string_view(row.vector_model_id)
    &&& record.vector_dimension == match row.vector_dimension {
        Some(d) => Some(d as u32),
        None => None,
    }
    &&& record.vector_projection_count == opt_count(row.vector_projection_count)
    &&& opt_pd_view(record.vector_coverage_digest) == opt_string_view(row.vector_coverage_digest)
    &&& record.vector_count == opt_count(row.vector_count)
    &&& record.vector_document_count == opt_count(row.vector_document_count)
    &&& record.vector_resume_version_count == opt_count(row.vector_resume_version_count)
    &&& opt_pd_view(record.vector_projection_digest) == opt_string_view(
        row.vector_projection_digest,
    )
    &&& opt_cd_view(record.vector_logical_content_digest) == opt_string_view(
        row.vector_logical_content_digest,
    )
    &&& Some(record.contract) == contract_of_schemas(
        opt_string_view(row.fulltext_manifest_schema),
        opt_string_view(row.fulltext_index_schema),
        opt_string_view(row.vector_manifest_schema),
        opt_string_view(row.vector_index_schema),
    )
}

fn opt_str(value: &Option<String>) -> (r: Option<&str>)
    ensures
        opt_view(r) == opt_string_view(*value),
{
    match value {
        Some(s) => Some(s.as_str()),
        None => None,
    }
}

fn clone_opt_string(value: &Option<String>) -> (r: Option<String>)
    ensures
        r == *value,
{
    match value {
        Some(s) => Some(s.clone()),
        None => None,
    }
}

/// Converts a stored count; a negative one breaks a storage invariant.
pub fn required_u64(value: i64) -> (r: Result<u64, MetaStoreError>)
    ensures
        value >= 0 ==> r == Ok::<u64, MetaStoreError>(value as u64),
        value < 0 ==> r == Err::<u64, MetaStoreError>(MetaStoreError::StorageInvariant),
{
    if value >= 0 {
        Ok(value as u64)
    } else {
        Err(MetaStoreError::StorageInvariant)
    }
}

fn optional_u64(value: Option<i64>) -> (r: Result<Option<u64>, MetaStoreError>)
    ensures
        opt_count_ok(value) ==> r == Ok::<Option<u64>, MetaStoreError>(opt_count(value)),
        !opt_count_ok(value) ==> r == Err::<Option<u64>, MetaStoreError>(
            MetaStoreError::StorageInvariant,
        ),
{
    match value {
        Some(v) => Ok(Some(required_u64(v)?)),
        None => Ok(None),
    }
}

fn optional_u32(value: Option<i64>) -> (r: Result<Option<u32>, MetaStoreError>)
    ensures
        match value {
            Some(d) => if 0 <= d <= u32::MAX {
                r == Ok::<Option<u32>, MetaStoreError>(Some(d as u32))
            } else {
                r == Err::<Option<u32>, MetaStoreError>(MetaStoreError::StorageInvariant)
            },
            None => r == Ok::<Option<u32>, MetaStoreError>(None),
        },
{
    match value {
        Some(d) => if 0 <= d && d <= 4294967295 {
            Ok(Some(d as u32))
        } else {
            Err(MetaStoreError::StorageInvariant)
        },
        None => Ok(None),
    }
}

/// Parses stored projection digest text; malformed text breaks a storage
/// invariant.
pub fn parse_projection_digest(value: &str) -> (r: Result<SearchProjectionDigest, MetaStoreError>)
    ensures
        match r {
            Ok(d) => digest_ok(value@) && d@ == value@,
            Err(e) => !digest_ok(value@) && e == MetaStoreError::StorageInvariant,
        },
{
    match SearchProjectionDigest::parse(value) {
        Some(d) => Ok(d),
        None => Err(MetaStoreError::StorageInvariant),
    }
}

fn optional_projection_digest(value: &Option<String>) -> (r: Result<
    Option<SearchProjectionDigest>,
    MetaStoreError,
>)
    ensures
        match r {
            Ok(d) => opt_digest_ok(*value) && opt_pd_view(d) == opt_string_view(*value),
            Err(e) => !opt_digest_ok(*value) && e == MetaStoreError::StorageInvariant,
        },
{
    match value {
        Some(v) => Ok(Some(parse_projection_digest(v.as_str())?)),
        None => Ok(None),
    }
}

/// Parses optional stored content digest text; malformed text breaks a
/// storage invariant.
pub fn optional_content_digest(value: &Option<String>) -> (r: Result<
    Option<ContentDigest>,
    MetaStoreError,
>)
    ensures
        match r {
            Ok(d) => opt_digest_ok(*value) && opt_cd_view(d) == opt_string_view(*value),
            Err(e) => !opt_digest_ok(*value) && e == MetaStoreError::StorageInvariant,
        },
{
    match value {
        Some(v) => match ContentDigest::parse(v.as_str()) {
            Some(d) => Ok(Some(d)),
            None => Err(MetaStoreError::StorageInvariant),
        },
        None => Ok(None),
    }
}

/// Reads a descriptor record from a stored row.
pub fn descriptor_record_from_row(row: &DescriptorRow) -> (r: Result<
    PublicationDescriptorRecord,
    MetaStoreError,
>)
    ensures
        match r {
            Ok(record) => descriptor_row_ok(*row) && record_matches_row(record, *row),
            Err(e) => !descriptor_row_ok(*row) && e == MetaStoreError::StorageInvariant,
        },
{
    let contract = descriptor_contract(
        opt_str(&row.fulltext_manifest_schema),
        opt_str(&row.fulltext_index_schema),
        opt_str(&row.vector_manifest_schema),
        opt_str(&row.vector_index_schema),
    )?;
    let expected_visible_epoch = required_u64(row.expected_visible_epoch)?;
    let projection_digest = parse_projection_digest(row.projection_digest.as_str())?;
    let publication_fingerprint = optional_content_digest(&row.publication_fingerprint)?;
    let fulltext_document_count = optional_u64(row.fulltext_document_count)?;
    let fulltext_projection_digest = optional_projection_digest(&row.fulltext_projection_digest)?;
    let fulltext_logical_content_digest = optional_content_digest(
        &row.fulltext_logical_content_digest,
    )?;
    let vector_dimension = optional_u32(row.vector_dimension)?;
    let vector_projection_count = optional_u64(row.vector_projection_count)?;
    let vector_coverage_digest = optional_projection_digest(&row.vector_coverage_digest)?;
    let vector_count = optional_u64(row.vector_count)?;
    let vector_document_count = optional_u64(row.vector_document_count)?;
    let vector_resume_version_count = optional_u64(row.vector_resume_version_count)?;
    let vector_projection_digest = optional_projection_digest(&row.vector_projection_digest)?;
    let vector_logical_content_digest = optional_content_digest(
        &row.vector_logical_content_digest,
    )?;
    Ok(
        PublicationDescriptorRecord {
            generation: row.generation.clone(),
            expected_visible_epoch,
            classifier_epoch: row.classifier_epoch.clone(),
            projection_digest,
            publication_fingerprint,
            state: row.state.clone(),
            fulltext_generation: clone_opt_string(&row.fulltext_generation),
            fulltext_document_count,
            fulltext_projection_digest,
            fulltext_logical_content_digest,
            vector_generation: clone_opt_string(&row.vector_generation),
            vector_mode: clone_opt_string(&row.vector_mode),
            vector_model_id: clone_opt_string(&row.vector_model_id),
            vector_dimension,
            vector_projection_count,
            vector_coverage_digest,
            vector_count,
            vector_document_count,
            vector_resume_version_count,
            vector_projection_digest,
            vector_logical_content_digest,
            contract,
        },
    )
}

/// A legacy model identifier has a character that is not white space and at
/// most 128 characters.
pub open spec fn legacy_model_ok(model: Seq<char>) -> bool {
    &&& exists|i: int| 0 <= i < model.len() && !is_white_space(#[trigger] model[i])
    &&& model.len() <= 128
}

fn legacy_model_is_ok(model: &str) -> (r: bool)
    ensures
        r == legacy_model_ok(model@),
{
    char_count_fits(model);
    let mut count: usize = 0;
    let mut visible = false;
    for c in iter: model.chars()
        invariant
            iter.seq() == model@,
            model@.len() <= usize::MAX,
            count == iter.index(),
            visible == exists|j: int| 0 <= j < count && !is_white_space(#[trigger] model@[j]),
    {
        if !white_space(c) {
            visible = true;
        }
        count += 1;
    }
    visible && count <= 128
}

/// The fingerprint parts of a legacy record, if the record has every field
/// they need and a vector mode that fits its model fields.
pub open spec fn legacy_parts(r: PublicationDescriptorRecord) -> Option<FingerprintPartsView> {
    let model = match r.vector_mode {
        Some(mode) => if mode@ == "disabled"@ && r.vector_model_id is None && r.vector_dimension
            is None {
            Some(None)
        } else if mode@ == "enabled"@ && r.vector_model_id is Some && r.vector_dimension is Some {
            Some(Some((r.vector_model_id.unwrap()@, r.vector_dimension.unwrap())))
        } else {
            None
        },
        None => None,
    };
    if r.fulltext_document_count is None || r.fulltext_projection_digest is None
        || r.fulltext_logical_content_digest is None || r.vector_projection_count is None
        || r.vector_projection_digest is None || r.vector_coverage_digest is None
        || r.vector_count is None || r.vector_document_count is None
        || r.vector_resume_version_count is None || r.vector_logical_content_digest is None
        || model is None {
        None
    } else {
        Some(
            FingerprintPartsView {
                classifier_epoch: r.classifier_epoch@,
                projection_digest: r.projection_digest@,
                fulltext_manifest_schema: LEGACY_FULLTEXT_MANIFEST@,
                fulltext_index_schema: LEGACY_FULLTEXT_INDEX@,
                fulltext_document_count: r.fulltext_document_count.unwrap(),
                fulltext_projection_digest: r.fulltext_projection_digest.unwrap()@,
                fulltext_logical_content_digest: r.fulltext_logical_content_digest.unwrap()@,
                vector_manifest_schema: LEGACY_VECTOR_MANIFEST@,
                vector_index_schema: LEGACY_VECTOR_INDEX@,
                vector_projection_count: r.vector_projection_count.unwrap(),
                vector_projection_digest: r.vector_projection_digest.unwrap()@,
                vector_coverage_digest: r.vector_coverage_digest.unwrap()@,
                vector_count: r.vector_count.unwrap(),
                vector_document_count: r.vector_document_count.unwrap(),
                vector_resume_version_count: r.vector_resume_version_count.unwrap(),
                vector_logical_content_digest: r.vector_logical_content_digest.unwrap()@,
                vector_model: model.unwrap(),
            },
        )
    }
}

/// The fingerprint of a publication recorded under the legacy descriptor
/// schemas.
pub fn legacy_fingerprint(record: &PublicationDescriptorRecord) -> (r: Result<
    ContentDigest,
    MetaStoreError,
>)
    ensures
        match legacy_parts(*record) {
            Some(p) => r matches Ok(d) && encode_utf8(d@) == digest_text(fingerprint_encoding(p)),
            None => r == Err::<ContentDigest, MetaStoreError>(MetaStoreError::StorageInvariant),
        },
{
    let fulltext_document_count = match record.fulltext_document_count {
        Some(v) => v,
        None => return Err(MetaStoreError::StorageInvariant),
    };
    let fulltext_projection_digest = match &record.fulltext_projection_digest {
        Some(v) => v,
        None => return Err(MetaStoreError::StorageInvariant),
    };
    let fulltext_logical_content_digest = match &record.fulltext_logical_content_digest {
        Some(v) => v,
        None => return Err(MetaStoreError::StorageInvariant),
    };
    let vector_projection_count = match record.vector_projection_count {
        Some(v) => v,
        None => return Err(MetaStoreError::StorageInvariant),
    };
    let vector_projection_digest = match &record.vector_projection_digest {
        Some(v) => v,
        None => return Err(MetaStoreError::StorageInvariant),
    };
    let vector_coverage_digest = match &record.vector_coverage_digest {
        Some(v) => v,
        None => return Err(MetaStoreError::StorageInvariant),
    };
    let vector_count = match record.vector_count {
        Some(v) => v,
        None => return Err(MetaStoreError::StorageInvariant),
    };
    let vector_document_count = match record.vector_document_count {
        Some(v) => v,
        None => return Err(MetaStoreError::StorageInvariant),
    };
    let vector_resume_version_count = match record.vector_resume_version_count {
        Some(v) => v,
        None => return Err(MetaStoreError::StorageInvariant),
    };
    let vector_logical_content_digest = match &record.vector_logical_content_digest {
        Some(v) => v,
        None => return Err(MetaStoreError::StorageInvariant),
    };
    let mode = match &record.vector_mode {
        Some(m) => m.as_str(),
        None => return Err(MetaStoreError::StorageInvariant),
    };
    let vector_model = if text_equal(mode, "disabled") && record.vector_model_id.is_none()
        && record.vector_dimension.is_none() {
        None
    } else if text_equal(mode, "enabled") {
        let model_id = match &record.vector_model_id {
            Some(m) => m.as_str(),
            None => return Err(MetaStoreError::StorageInvariant),
        };
        let dimension = match record.vector_dimension {
            Some(d) => d,
            None => return Err(MetaStoreError::StorageInvariant),
        };
        Some((model_id, dimension))
    } else {
        proof {
            reveal_strlit("disabled");
            reveal_strlit("enabled");
        }
        return Err(MetaStoreError::StorageInvariant);
    };
    let parts = FingerprintParts {
        classifier_epoch: record.classifier_epoch.as_str(),
        projection_digest: record.projection_digest.as_str(),
        fulltext_manifest_schema: LEGACY_FULLTEXT_MANIFEST,
        fulltext_index_schema: LEGACY_FULLTEXT_INDEX,
        fulltext_document_count,
        fulltext_projection_digest: fulltext_projection_digest.as_str(),
        fulltext_logical_content_digest: fulltext_logical_content_digest.as_str(),
        vector_manifest_schema: LEGACY_VECTOR_MANIFEST,
        vector_index_schema: LEGACY_VECTOR_INDEX,
        vector_projection_count,
        vector_projection_digest: vector_projection_digest.as_str(),
        vector_coverage_digest: vector_coverage_digest.as_str(),
        vector_count,
        vector_document_count,
        vector_resume_version_count,
        vector_logical_content_digest: vector_logical_content_digest.as_str(),
        vector_model,
    };
    proof {
        assert(legacy_parts(*record) == Some(crate::fingerprint::parts_view(parts)));
    }
    Ok(fingerprint_of_parts(&parts))
}

/// Whether the vector mode of a published record fits its other vector
/// fields: a disabled snapshot has no model, no dimension, no vectors and the
/// empty coverage; an enabled one a usable model and a dimension.
pub open spec fn vector_mode_fields_ok(r: PublicationDescriptorRecord) -> bool {
    match r.vector_mode {
        Some(mode) => if mode@ == "disabled"@ {
            &&& r.vector_model_id is None
            &&& r.vector_dimension is None
            &&& r.vector_count == Some(0u64)
            &&& r.vector_document_count == Some(0u64)
            &&& r.vector_resume_version_count == Some(0u64)
            &&& opt_pd_view(r.vector_coverage_digest) == Some(empty_projection_digest())
        } else if mode@ == "enabled"@ {
            &&& r.vector_model_id matches Some(m) && legacy_model_ok(m@)
            &&& r.vector_dimension matches Some(d) && d != 0
        } else {
            false
        },
        None => false,
    }
}

/// What every stored descriptor record satisfies, but for the fingerprint of
/// a current record, which only the publication journal can confirm. A
/// record without descriptors has no descriptor field and is preparing or
/// abandoned; a published record has every count, names its own generation
/// and projection in both snapshots, has consistent vector counts, is past
/// preparing, has a fitting vector mode, and, under the legacy schemas,
/// carries its legacy fingerprint.
pub open spec fn descriptor_record_ok(r: PublicationDescriptorRecord) -> bool {
    if r.contract == DescriptorContract::Empty {
        &&& r.publication_fingerprint is None
        &&& r.fulltext_generation is None
        &&& r.fulltext_document_count is None
        &&& r.fulltext_projection_digest is None
        &&& r.fulltext_logical_content_digest is None
        &&& r.vector_generation is None
        &&& r.vector_mode is None
        &&& r.vector_model_id is None
        &&& r.vector_dimension is None
        &&& r.vector_projection_count is None
        &&& r.vector_coverage_digest is None
        &&& r.vector_count is None
        &&& r.vector_document_count is None
        &&& r.vector_resume_version_count is None
        &&& r.vector_projection_digest is None
        &&& r.vector_logical_content_digest is None
        &&& (r.state@ == "preparing"@ || r.state@ == "abandoned"@)
    } else {
        &&& r.publication_fingerprint is Some
        &&& r.fulltext_document_count is Some
        &&& r.vector_projection_count is Some
        &&& r.vector_count is Some
        &&& r.vector_document_count is Some
        &&& r.vector_resume_version_count is Some
        &&& opt_string_view(r.fulltext_generation) == Some(r.generation@)
        &&& opt_string_view(r.vector_generation) == Some(r.generation@)
        &&& opt_pd_view(r.fulltext_projection_digest) == Some(r.projection_digest@)
        &&& opt_pd_view(r.vector_projection_digest) == Some(r.projection_digest@)
        &&& r.fulltext_document_count.unwrap() == r.vector_projection_count.unwrap()
        &&& r.vector_document_count.unwrap() <= r.vector_projection_count.unwrap()
        &&& r.vector_resume_version_count.unwrap() == r.vector_document_count.unwrap()
        &&& r.vector_count.unwrap() >= r.vector_document_count.unwrap()
        &&& r.state@ != "preparing"@
        &&& vector_mode_fields_ok(r)
        &&& r.contract == DescriptorContract::Legacy ==> (legacy_parts(r) matches Some(p)
            && digest_text(fingerprint_encoding(p)) == encode_utf8(
            r.publication_fingerprint.unwrap()@,
        ))
    }
}

fn opt_string_is(value: &Option<String>, expected: &str) -> (r: bool)
    ensures
        r == (opt_string_view(*value) == Some(expected@)),
{
    match value {
        Some(v) => text_equal(v.as_str(), expected),
        None => false,
    }
}

fn opt_pd_is(value: &Option<SearchProjectionDigest>, expected: &SearchProjectionDigest) -> (r: bool)
    ensures
        r == (opt_pd_view(*value) == Some(expected@)),
{
    match value {
        Some(v) => v.same_as(expected),
        None => false,
    }
}

fn empty_descriptor_ok(r: &PublicationDescriptorRecord) -> (ok: bool)
    requires
        r.contract == DescriptorContract::Empty,
    ensures
        ok == descriptor_record_ok(*r),
{
    r.publication_fingerprint.is_none() && r.fulltext_generation.is_none()
        && r.fulltext_document_count.is_none() && r.fulltext_projection_digest.is_none()
        && r.fulltext_logical_content_digest.is_none() && r.vector_generation.is_none()
        && r.vector_mode.is_none() && r.vector_model_id.is_none() && r.vector_dimension.is_none()
        && r.vector_projection_count.is_none() && r.vector_coverage_digest.is_none()
        && r.vector_count.is_none() && r.vector_document_count.is_none()
        && r.vector_resume_version_count.is_none() && r.vector_projection_digest.is_none()
        && r.vector_logical_content_digest.is_none() && (text_equal(r.state.as_str(), "preparing")
        || text_equal(r.state.as_str(), "abandoned"))
}

fn vector_mode_fields_are_ok(r: &PublicationDescriptorRecord) -> (ok: bool)
    ensures
        ok == vector_mode_fields_ok(*r),
{
    let mode = match &r.vector_mode {
        Some(m) => m.as_str(),
        None => return false,
    };
    if text_equal(mode, "disabled") {
        let empty = empty_projection_digest_value();
        r.vector_model_id.is_none() && r.vector_dimension.is_none() && r.vector_count == Some(0u64)
            && r.vector_document_count == Some(0u64) && r.vector_resume_version_count == Some(0u64)
            && opt_pd_is(&r.vector_coverage_digest, &empty)
    } else if text_equal(mode, "enabled") {
        let model_ok = match &r.vector_model_id {
            Some(m) => legacy_model_is_ok(m.as_str()),
            None => false,
        };
        let dimension_ok = match r.vector_dimension {
            Some(d) => d != 0,
            None => false,
        };
        model_ok && dimension_ok
    } else {
        false
    }
}

/// Checks a stored descriptor record; a current record's fingerprint is
/// checked against the journal by `check_current_descriptor_fingerprint`.
pub fn validate_descriptor_record(record: &PublicationDescriptorRecord) -> (r: Result<
    (),
    MetaStoreError,
>)
    ensures
        r is Ok <==> descriptor_record_ok(*record),
        r is Err ==> r == Err::<(), MetaStoreError>(MetaStoreError::StorageInvariant),
{
    match record.contract {
        DescriptorContract::Empty => {
            if empty_descriptor_ok(record) {
                return Ok(());
            }
            return Err(MetaStoreError::StorageInvariant);
        },
        _ => {},
    }
    let fingerprint = match &record.publication_fingerprint {
        Some(f) => f,
        None => return Err(MetaStoreError::StorageInvariant),
    };
    let fulltext_count = match record.fulltext_document_count {
        Some(v) => v,
        None => return Err(MetaStoreError::StorageInvariant),
    };
    let vector_projection_count = match record.vector_projection_count {
        Some(v) => v,
        None => return Err(MetaStoreError::StorageInvariant),
    };
    let vector_count = match record.vector_count {
        Some(v) => v,
        None => return Err(MetaStoreError::StorageInvariant),
    };
    let vector_document_count = match record.vector_document_count {
        Some(v) => v,
        None => return Err(MetaStoreError::StorageInvariant),
    };
    let vector_resume_version_count = match record.vector_resume_version_count {
        Some(v) => v,
        None => return Err(MetaStoreError::StorageInvariant),
    };
    if !opt_string_is(&record.fulltext_generation, record.generation.as_str()) || !opt_string_is(
        &record.vector_generation,
        record.generation.as_str(),
    ) || !opt_pd_is(&record.fulltext_projection_digest, &record.projection_digest) || !opt_pd_is(
        &record.vector_projection_digest,
        &record.projection_digest,
    ) || fulltext_count != vector_projection_count || vector_document_count
        > vector_projection_count || vector_resume_version_count != vector_document_count
        || vector_count < vector_document_count || text_equal(record.state.as_str(), "preparing") {
        return Err(MetaStoreError::StorageInvariant);
    }
    if !vector_mode_fields_are_ok(record) {
        return Err(MetaStoreError::StorageInvariant);
    }
    match record.contract {
        DescriptorContract::Legacy => {
            let legacy = legacy_fingerprint(record)?;
            if !legacy.same_as(fingerprint) {
                proof {
                    encode_utf8_decode_utf8(legacy@);
                    encode_utf8_decode_utf8(fingerprint@);
                }
                return Err(MetaStoreError::StorageInvariant);
            }
            proof {
                encode_utf8_decode_utf8(legacy@);
                encode_utf8_decode_utf8(fingerprint@);
            }
        },
        _ => {},
    }
    Ok(())
}

/// The stored fingerprint of a current record equals the fingerprint of the
/// publication the journal holds under its generation.
pub open spec fn current_fingerprint_ok(
    record: PublicationDescriptorRecord,
    publication: Option<SearchPublicationRecord>,
) -> bool {
    &&& record.publication_fingerprint is Some
    &&& publication matches Some(p) && p.fulltext is Some && p.vector is Some && digest_text(
        fingerprint_encoding(
            current_parts(
                p.classifier_epoch@,
                p.projection_digest@,
                p.fulltext.unwrap()@,
                p.vector.unwrap()@,
            ),
        ),
    ) == encode_utf8(record.publication_fingerprint.unwrap()@)
}

/// Checks the fingerprint of a current record against the publication read
/// back from the journal.
pub fn check_current_descriptor_fingerprint(
    record: &PublicationDescriptorRecord,
    publication: Option<&SearchPublicationRecord>,
) -> (r: Result<(), MetaStoreError>)
    ensures
        r is Ok <==> current_fingerprint_ok(
            *record,
            match publication {
                Some(p) => Some(*p),
                None => None,
            },
        ),
        r is Err ==> r == Err::<(), MetaStoreError>(MetaStoreError::StorageInvariant),
{
    let fingerprint = match &record.publication_fingerprint {
        Some(f) => f,
        None => return Err(MetaStoreError::StorageInvariant),
    };
    let publication = match publication {
        Some(p) => p,
        None => return Err(MetaStoreError::StorageInvariant),
    };
    let fulltext = match &publication.fulltext {
        Some(f) => f,
        None => return Err(MetaStoreError::StorageInvariant),
    };
    let vector = match &publication.vector {
        Some(v) => v,
        None => return Err(MetaStoreError::StorageInvariant),
    };
    let canonical = search_publication_fingerprint(
        publication.classifier_epoch.as_str(),
        &publication.projection_digest,
        fulltext,
        vector,
    );
    proof {
        encode_utf8_decode_utf8(canonical@);
        encode_utf8_decode_utf8(fingerprint@);
    }
    if !canonical.same_as(fingerprint) {
        return Err(MetaStoreError::StorageInvariant);
    }
    Ok(())
}

} // verus!
