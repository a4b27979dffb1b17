use vstd::prelude::*;
use vstd::utf8::*;
use crate::contract::CLASSIFIER_EPOCH;
use crate::error::{publication_error, MetaStoreError, SearchPublicationFailure};
use crate::ids::ActiveSearchProjection;
use crate::projection_digest::{projection_digest_text, SearchProjectionDigest};
use crate::publication_model::{
    mode_view, DocumentStatus, FullTextView, SearchPublicationDraft, SearchPublicationValidation,
    VectorModeView, VectorSnapshotMode, VectorView,
};
use crate::text::{char_count_fits, text_equal};

verus! {

/// Longest accepted generation name, in bytes.
pub const MAX_GENERATION_BYTES: usize = 128;
/// Longest accepted embedding model identifier, in characters.
pub const MAX_MODEL_ID_CHARS: usize = 128;
/// Largest accepted vector dimension.
pub const MAX_VECTOR_DIMENSION: u32 = 65_536;

/// Bytes allowed in a generation name: ASCII letters, digits, `.`, `_`, `-`.
pub open spec fn generation_byte_ok(b: u8) -> bool {
    (48 <= b <= 57) || (65 <= b <= 90) || (97 <= b <= 122) || b == 46 || b == 95 || b == 45
}

/// A generation name is 1 to 128 allowed bytes and does not start with `.`
/// (which also rules out `.` and `..`), so it is safe as a directory name.
pub open spec fn valid_generation(text: Seq<char>) -> bool {
    let bytes = encode_utf8(text);
    &&& 0 < bytes.len() <= MAX_GENERATION_BYTES
    &&& bytes[0] != 46
    &&& forall|i: int| 0 <= i < bytes.len() ==> generation_byte_ok(#[trigger] bytes[i])
}

/// Checks a generation name.
pub fn is_valid_generation(generation: &str) -> (r: bool)
    ensures
        r == valid_generation(generation@),
{
    let bytes = generation.as_bytes();
    if bytes.len() == 0 || bytes.len() > MAX_GENERATION_BYTES || bytes[0] == 46 {
        return false;
    }
    let mut i: usize = 0;
    while i < bytes.len()
        invariant
            i <= bytes.len(),
            bytes@ == encode_utf8(generation@),
            forall|j: int| 0 <= j < i ==> generation_byte_ok(#[trigger] bytes@[j]),
        decreases bytes.len() - i,
    {
        let b = bytes[i];
        if !((48 <= b && b <= 57) || (65 <= b && b <= 90) || (97 <= b && b <= 122) || b == 46 || b
            == 95 || b == 45) {
            return false;
        }
        i += 1;
    }
    true
}

/// Unicode control characters (general category Cc).
pub open spec fn is_control_char(c: char) -> bool {
    (c as u32) <= 0x1f || (0x7f <= (c as u32) && (c as u32) <= 0x9f)
}

/// Unicode `White_Space` characters, which `str::trim` removes.
pub open spec fn is_white_space(c: char) -> bool {
    let u = c as u32;
    ||| (0x9 <= u && u <= 0xd)
    ||| u == 0x20
    ||| u == 0x85
    ||| u == 0xa0
    ||| u == 0x1680
    ||| (0x2000 <= u && u <= 0x200a)
    ||| u == 0x2028
    ||| u == 0x2029
    ||| u == 0x202f
    ||| u == 0x205f
    ||| u == 0x3000
}

pub fn white_space(c: char) -> (r: bool)
    ensures
        r == is_white_space(c),
{
    let u = c as u32;
    (0x9 <= u && u <= 0xd) || u == 0x20 || u == 0x85 || u == 0xa0 || u == 0x1680 || (0x2000 <= u
        && u <= 0x200a) || u == 0x2028 || u == 0x2029 || u == 0x202f || u == 0x205f || u == 0x3000
}

/// A model identifier is 1 to 128 characters, has no control character and
/// no leading or trailing white space.
pub open spec fn valid_model_id(model_id: Seq<char>) -> bool {
    &&& 1 <= model_id.len() <= MAX_MODEL_ID_CHARS
    &&& forall|i: int| 0 <= i < model_id.len() ==> !is_control_char(#[trigger] model_id[i])
    &&& !is_white_space(model_id[0])
    &&& !is_white_space(model_id.last())
}

/// Checks an embedding model identifier.
pub fn is_valid_model_id(model_id: &str) -> (r: bool)
    ensures
        r == valid_model_id(model_id@),
{
    char_count_fits(model_id);
    let mut count: usize = 0;
    let mut control = false;
    let mut first_white = false;
    let mut last_white = false;
    for c in iter: model_id.chars()
        invariant
            iter.seq() == model_id@,
            model_id@.len() <= usize::MAX,
            count == iter.index(),
            control == exists|j: int| 0 <= j < count && is_control_char(#[trigger] model_id@[j]),
            count > 0 ==> first_white == is_white_space(model_id@[0]),
            count > 0 ==> last_white == is_white_space(model_id@[count - 1]),
    {
        let u = c as u32;
        if u <= 0x1f || (0x7f <= u && u <= 0x9f) {
            control = true;
        }
        let w = white_space(c);
        if count == 0 {
            first_white = w;
        }
        last_white = w;
        count += 1;
    }
    1 <= count && count <= MAX_MODEL_ID_CHARS && !control && !first_white && !last_white
}

/// Only the classifier epoch of this build is accepted.
pub open spec fn current_classifier_epoch(epoch: Seq<char>) -> bool {
    epoch == CLASSIFIER_EPOCH@
}

pub open spec fn option_text(value: Option<String>) -> Option<Seq<char>> {
    match value {
        None => None,
        Some(s) => Some(s@),
    }
}

/// Failure of a draft, if any: its generation and base must be valid and
/// distinct, and its classifier epoch must be current.
pub open spec fn draft_failure(
    generation: Seq<char>,
    base_generation: Option<Seq<char>>,
    classifier_epoch: Seq<char>,
) -> Option<SearchPublicationFailure> {
    if !valid_generation(generation) || match base_generation {
        None => false,
        Some(base) => !valid_generation(base) || base == generation,
    } {
        Some(SearchPublicationFailure::InvalidGeneration)
    } else if !current_classifier_epoch(classifier_epoch) {
        Some(SearchPublicationFailure::InvalidClassifierEpoch)
    } else {
        None
    }
}

pub open spec fn failure_result(failure: Option<SearchPublicationFailure>) -> Result<
    (),
    MetaStoreError,
> {
    match failure {
        None => Ok(()),
        Some(f) => Err(MetaStoreError::SearchPublication(f)),
    }
}

/// Checks a publication draft before it is journaled.
pub fn validate_draft(draft: &SearchPublicationDraft) -> (r: Result<(), MetaStoreError>)
    ensures
        r == failure_result(
            draft_failure(
                draft.generation@,
                option_text(draft.base_generation),
                draft.classifier_epoch@,
            ),
        ),
{
    let base_invalid = match &draft.base_generation {
        None => false,
        Some(base) => !is_valid_generation(base.as_str()) || text_equal(
            base.as_str(),
            draft.generation.as_str(),
        ),
    };
    if !is_valid_generation(draft.generation.as_str()) || base_invalid {
        return Err(publication_error(SearchPublicationFailure::InvalidGeneration));
    }
    if !text_equal(draft.classifier_epoch.as_str(), CLASSIFIER_EPOCH) {
        return Err(publication_error(SearchPublicationFailure::InvalidClassifierEpoch));
    }
    Ok(())
}

/// Digest text of the empty projection mapping, as characters.
pub open spec fn empty_projection_digest() -> Seq<char> {
    decode_utf8(projection_digest_text(Seq::empty()))
}

/// Failure of a pair of snapshot descriptors, if any. Both must name the
/// publication's valid generation and the same projection; the vector
/// counts must be consistent; a disabled snapshot has no vectors and the
/// empty coverage, an enabled one a valid model and a dimension in
/// `1..=65536`.
pub open spec fn descriptor_failure(generation: Seq<char>, ft: FullTextView, v: VectorView) -> Option<
    SearchPublicationFailure,
> {
    if !valid_generation(generation) || ft.generation != generation || v.generation != generation
        || ft.projection_digest != v.projection_digest || ft.document_count
        != v.projection_count {
        Some(SearchPublicationFailure::DescriptorMismatch)
    } else if v.document_count > v.projection_count || v.resume_version_count != v.document_count
        || v.vector_count < v.document_count {
        Some(SearchPublicationFailure::InvalidDescriptor)
    } else {
        match v.mode {
            VectorModeView::Disabled => if v.vector_count == 0 && v.document_count == 0
                && v.resume_version_count == 0 && v.coverage_digest == empty_projection_digest() {
                None
            } else {
                Some(SearchPublicationFailure::InvalidDescriptor)
            },
            VectorModeView::Enabled { model_id, dimension } => if valid_model_id(model_id) && 1
                <= dimension <= MAX_VECTOR_DIMENSION {
                None
            } else {
                Some(SearchPublicationFailure::InvalidDescriptor)
            },
        }
    }
}

/// Digest of the empty projection mapping.
pub fn empty_projection_digest_value() -> (r: SearchProjectionDigest)
    ensures
        r@ == empty_projection_digest(),
{
    let empty: Vec<ActiveSearchProjection> = Vec::new();
    assert(empty@ =~= Seq::<ActiveSearchProjection>::empty());
    let d = SearchProjectionDigest::from_pairs(empty.as_slice()).unwrap();
    proof {
        encode_utf8_decode_utf8(d@);
    }
    d
}

/// Checks the descriptors of both snapshots of a publication.
pub fn validate_descriptors(validation: &SearchPublicationValidation) -> (r: Result<
    (),
    MetaStoreError,
>)
    ensures
        r == failure_result(
            descriptor_failure(validation.generation@, validation.fulltext@, validation.vector@),
        ),
{
    let fulltext = validation.fulltext;
    let vector = validation.vector;
    if !is_valid_generation(validation.generation) || !text_equal(
        fulltext.generation(),
        validation.generation,
    ) || !text_equal(vector.generation(), validation.generation)
        || !fulltext.projection_digest().same_as(vector.projection_digest())
        || fulltext.document_count() != vector.projection_count() {
        return Err(publication_error(SearchPublicationFailure::DescriptorMismatch));
    }
    if vector.document_count() > vector.projection_count() || vector.resume_version_count()
        != vector.document_count() || vector.vector_count() < vector.document_count() {
        return Err(publication_error(SearchPublicationFailure::InvalidDescriptor));
    }
    let empty_coverage = empty_projection_digest_value();
    let ok = match vector.mode() {
        VectorSnapshotMode::Disabled => vector.vector_count() == 0 && vector.document_count() == 0
            && vector.resume_version_count() == 0 && vector.coverage_digest().same_as(
            &empty_coverage,
        ),
        VectorSnapshotMode::Enabled { model_id, dimension } => is_valid_model_id(model_id.as_str())
            && 1 <= *dimension && *dimension <= MAX_VECTOR_DIMENSION,
    };
    if !ok {
        return Err(publication_error(SearchPublicationFailure::InvalidDescriptor));
    }
    Ok(())
}

/// Storage form of a vector mode: its label, model and dimension.
pub fn vector_mode_storage(mode: &VectorSnapshotMode) -> (r: (&'static str, Option<&str>, Option<
    u32,
>))
    ensures
        match mode_view(*mode) {
            VectorModeView::Disabled => r.0@ == "disabled"@ && r.1 is None && r.2 is None,
            VectorModeView::Enabled { model_id, dimension } => {
                &&& r.0@ == "enabled"@
                &&& r.1 matches Some(m) && m@ == model_id
                &&& r.2 == Some(dimension)
            },
        },
{
    match mode {
        VectorSnapshotMode::Disabled => ("disabled", None, None),
        VectorSnapshotMode::Enabled { model_id, dimension } => (
            "enabled",
            Some(model_id.as_str()),
            Some(*dimension),
        ),
    }
}

/// Terminal states a document may leave the projection for.
pub open spec fn stable_nonsearch_terminal(status: DocumentStatus) -> bool {
    status == DocumentStatus::Excluded || status == DocumentStatus::FailedPermanent || status
        == DocumentStatus::Deleted
}

pub fn is_stable_nonsearch_terminal(status: DocumentStatus) -> (r: bool)
    ensures
        r == stable_nonsearch_terminal(status),
{
    matches!(
        status,
        DocumentStatus::Excluded | DocumentStatus::FailedPermanent | DocumentStatus::Deleted
    )
}

} // verus!
