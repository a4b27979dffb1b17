use vstd::prelude::*;
use vstd::utf8::*;
use crate::canonical::{framed, le_bytes, push_framed, push_framed_u32, push_framed_u64, u64_le};
use crate::digest::{digest_text, ContentDigest};
use crate::projection_digest::SearchProjectionDigest;
use crate::publication_model::{
    mode_view, FullTextSnapshotDescriptor, VectorModeView, VectorSnapshotDescriptor,
    VectorSnapshotMode, FULLTEXT_INDEX_SCHEMA_V3, FULLTEXT_MANIFEST_SCHEMA_V3,
    VECTOR_INDEX_SCHEMA_V4, VECTOR_MANIFEST_SCHEMA_V4,
};

verus! {

/// Values that identify a validated publication: the classifier epoch, the
/// projection digest and every descriptor field of both snapshots.
pub struct FingerprintParts<'a> {
    pub classifier_epoch: &'a str,
    pub projection_digest: &'a str,
    pub fulltext_manifest_schema: &'a str,
    pub fulltext_index_schema: &'a str,
    pub fulltext_document_count: u64,
    pub fulltext_projection_digest: &'a str,
    pub fulltext_logical_content_digest: &'a str,
    pub vector_manifest_schema: &'a str,
    pub vector_index_schema: &'a str,
    pub vector_projection_count: u64,
    pub vector_projection_digest: &'a str,
    pub vector_coverage_digest: &'a str,
    pub vector_count: u64,
    pub vector_document_count: u64,
    pub vector_resume_version_count: u64,
    pub vector_logical_content_digest: &'a str,
    /// `None` for a disabled vector snapshot, else the model and dimension.
    pub vector_model: Option<(&'a str, u32)>,
}

/// Mathematical value of fingerprint parts.
pub struct FingerprintPartsView {
    pub classifier_epoch: Seq<char>,
    pub projection_digest: Seq<char>,
    pub fulltext_manifest_schema: Seq<char>,
    pub fulltext_index_schema: Seq<char>,
    pub fulltext_document_count: u64,
    pub fulltext_projection_digest: Seq<char>,
    pub fulltext_logical_content_digest: Seq<char>,
    pub vector_manifest_schema: Seq<char>,
    pub vector_index_schema: Seq<char>,
    pub vector_projection_count: u64,
    pub vector_projection_digest: Seq<char>,
    pub vector_coverage_digest: Seq<char>,
    pub vector_count: u64,
    pub vector_document_count: u64,
    pub vector_resume_version_count: u64,
    pub vector_logical_content_digest: Seq<char>,
    pub vector_model: Option<(Seq<char>, u32)>,
}

pub open spec fn parts_view(p: FingerprintParts) -> FingerprintPartsView {
    FingerprintPartsView {
        classifier_epoch: p.classifier_epoch@,
        projection_digest: p.projection_digest@,
        fulltext_manifest_schema: p.fulltext_manifest_schema@,
        fulltext_index_schema: p.fulltext_index_schema@,
        fulltext_document_count: p.fulltext_document_count,
        fulltext_projection_digest: p.fulltext_projection_digest@,
        fulltext_logical_content_digest: p.fulltext_logical_content_digest@,
        vector_manifest_schema: p.vector_manifest_schema@,
        vector_index_schema: p.vector_index_schema@,
        vector_projection_count: p.vector_projection_count,
        vector_projection_digest: p.vector_projection_digest@,
        vector_coverage_digest: p.vector_coverage_digest@,
        vector_count: p.vector_count,
        vector_document_count: p.vector_document_count,
        vector_resume_version_count: p.vector_resume_version_count,
        vector_logical_content_digest: p.vector_logical_content_digest@,
        vector_model: match p.vector_model {
            None => None,
            Some((model, dimension)) => Some((model@, dimension)),
        },
    }
}

pub open spec fn text_part(text: Seq<char>) -> Seq<u8> {
    framed(encode_utf8(text))
}

/// Canonical byte encoding hashed into a publication fingerprint: every part
/// framed by its length, in a fixed order, ending with the vector mode.
pub open spec fn fingerprint_encoding(p: FingerprintPartsView) -> Seq<u8> {
    text_part("resume-ir.search-publication.v1"@) + text_part(p.classifier_epoch) + text_part(
        p.projection_digest,
    ) + text_part(p.fulltext_manifest_schema) + text_part(p.fulltext_index_schema) + framed(
        u64_le(p.fulltext_document_count),
    ) + text_part(p.fulltext_projection_digest) + text_part(p.fulltext_logical_content_digest)
        + text_part(p.vector_manifest_schema) + text_part(p.vector_index_schema) + framed(
        u64_le(p.vector_projection_count),
    ) + text_part(p.vector_projection_digest) + text_part(p.vector_coverage_digest) + framed(
        u64_le(p.vector_count),
    ) + framed(u64_le(p.vector_document_count)) + framed(u64_le(p.vector_resume_version_count))
        + text_part(p.vector_logical_content_digest) + match p.vector_model {
        None => text_part("disabled"@),
        Some((model, dimension)) => text_part("enabled"@) + text_part(model) + framed(
            le_bytes(dimension as nat, 4),
        ),
    }
}

fn push_text(target: &mut Vec<u8>, text: &str)
    ensures
        final(target)@ == old(target)@ + text_part(text@),
{
    push_framed(target, text.as_bytes());
}

/// Digest of the canonical encoding of fingerprint parts.
pub fn fingerprint_of_parts(parts: &FingerprintParts) -> (r: ContentDigest)
    ensures
        encode_utf8(r@) == digest_text(fingerprint_encoding(parts_view(*parts))),
{
    let mut c: Vec<u8> = Vec::new();
    push_text(&mut c, "resume-ir.search-publication.v1");
    push_text(&mut c, parts.classifier_epoch);
    push_text(&mut c, parts.projection_digest);
    push_text(&mut c, parts.fulltext_manifest_schema);
    push_text(&mut c, parts.fulltext_index_schema);
    push_framed_u64(&mut c, parts.fulltext_document_count);
    push_text(&mut c, parts.fulltext_projection_digest);
    push_text(&mut c, parts.fulltext_logical_content_digest);
    push_text(&mut c, parts.vector_manifest_schema);
    push_text(&mut c, parts.vector_index_schema);
    push_framed_u64(&mut c, parts.vector_projection_count);
    push_text(&mut c, parts.vector_projection_digest);
    push_text(&mut c, parts.vector_coverage_digest);
    push_framed_u64(&mut c, parts.vector_count);
    push_framed_u64(&mut c, parts.vector_document_count);
    push_framed_u64(&mut c, parts.vector_resume_version_count);
    push_text(&mut c, parts.vector_logical_content_digest);
    match parts.vector_model {
        None => {
            push_text(&mut c, "disabled");
        },
        Some((model, dimension)) => {
            push_text(&mut c, "enabled");
            push_text(&mut c, model);
            push_framed_u32(&mut c, dimension);
        },
    }
    assert(c@ =~= fingerprint_encoding(parts_view(*parts)));
    ContentDigest::from_bytes(c.as_slice())
}

/// Fingerprint parts of a current publication.
pub open spec fn current_parts(
    classifier_epoch: Seq<char>,
    projection_digest: Seq<char>,
    ft: crate::publication_model::FullTextView,
    v: crate::publication_model::VectorView,
) -> FingerprintPartsView {
    FingerprintPartsView {
        classifier_epoch,
        projection_digest,
        fulltext_manifest_schema: FULLTEXT_MANIFEST_SCHEMA_V3@,
        fulltext_index_schema: FULLTEXT_INDEX_SCHEMA_V3@,
        fulltext_document_count: ft.document_count,
        fulltext_projection_digest: ft.projection_digest,
        fulltext_logical_content_digest: ft.logical_content_digest,
        vector_manifest_schema: VECTOR_MANIFEST_SCHEMA_V4@,
        vector_index_schema: VECTOR_INDEX_SCHEMA_V4@,
        vector_projection_count: v.projection_count,
        vector_projection_digest: v.projection_digest,
        vector_coverage_digest: v.coverage_digest,
        vector_count: v.vector_count,
        vector_document_count: v.document_count,
        vector_resume_version_count: v.resume_version_count,
        vector_logical_content_digest: v.logical_content_digest,
        vector_model: match v.mode {
            VectorModeView::Disabled => None,
            VectorModeView::Enabled { model_id, dimension } => Some((model_id, dimension)),
        },
    }
}

/// Fingerprint that binds a validated publication to its exact snapshot
/// descriptors.
pub fn search_publication_fingerprint(
    classifier_epoch: &str,
    projection_digest: &SearchProjectionDigest,
    fulltext: &FullTextSnapshotDescriptor,
    vector: &VectorSnapshotDescriptor,
) -> (r: ContentDigest)
    ensures
        encode_utf8(r@) == digest_text(
            fingerprint_encoding(
                current_parts(classifier_epoch@, projection_digest@, fulltext@, vector@),
            ),
        ),
{
    let vector_model = match vector.mode() {
        VectorSnapshotMode::Disabled => None,
        VectorSnapshotMode::Enabled { model_id, dimension } => Some((model_id.as_str(), *dimension)),
    };
    let parts = FingerprintParts {
        classifier_epoch,
        projection_digest: projection_digest.as_str(),
        fulltext_manifest_schema: fulltext.manifest_schema(),
        fulltext_index_schema: fulltext.index_schema(),
        fulltext_document_count: fulltext.document_count(),
        fulltext_projection_digest: fulltext.projection_digest().as_str(),
        fulltext_logical_content_digest: fulltext.logical_content_digest().as_str(),
        vector_manifest_schema: vector.manifest_schema(),
        vector_index_schema: vector.index_schema(),
        vector_projection_count: vector.projection_count(),
        vector_projection_digest: vector.projection_digest().as_str(),
        vector_coverage_digest: vector.coverage_digest().as_str(),
        vector_count: vector.vector_count(),
        vector_document_count: vector.document_count(),
        vector_resume_version_count: vector.resume_version_count(),
        vector_logical_content_digest: vector.logical_content_digest().as_str(),
        vector_model,
    };
    assert(parts_view(parts) == current_parts(
        classifier_epoch@,
        projection_digest@,
        fulltext@,
        vector@,
    ));
    fingerprint_of_parts(&parts)
}

} // verus!
