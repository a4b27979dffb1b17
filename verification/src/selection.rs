use vstd::prelude::*;
use vstd::utf8::*;
use crate::descriptor_records::digest_ok;
use crate::digest::ContentDigest;
use crate::error::MetaStoreError;
use crate::ids::{valid_identifier, CandidateId, DocumentId, ResumeVersionId, SourceRevisionId};

verus! {

/// Most entity mentions that selection details return.
pub const MAX_SEARCH_SELECTION_MENTIONS: usize = 256;
/// Longest parse or schema version label, in bytes.
pub const MAX_VERSION_LABEL_BYTES: usize = 256;
/// Longest stored language set, in bytes of JSON.
pub const MAX_LANGUAGE_SET_BYTES: usize = 4096;
/// Most languages in a language set.
pub const MAX_LANGUAGE_COUNT: usize = 64;
/// Longest language tag, in bytes.
pub const MAX_LANGUAGE_BYTES: usize = 64;
/// Longest document source URI, in bytes.
pub const MAX_DOCUMENT_SOURCE_URI_BYTES: u64 = 131072;
/// Longest normalized document path, in bytes.
pub const MAX_DOCUMENT_NORMALIZED_PATH_BYTES: u64 = 131072;
/// Longest document file name, in bytes.
pub const MAX_DOCUMENT_FILE_NAME_BYTES: u64 = 4096;
/// Longest document extension, in bytes.
pub const MAX_DOCUMENT_EXTENSION_BYTES: u64 = 256;

/// A document and the exact version a search result showed, at the visible
/// epoch of the head it came from.
#[derive(Clone, Debug, PartialEq, Eq)]
pub struct SearchSelection {
    pub document_id: DocumentId,
    pub resume_version_id: ResumeVersionId,
    pub visible_epoch: u64,
}

impl SearchSelection {
    /// A copy of the selection.
    pub fn duplicate(&self) -> (r: Self)
        ensures
            r == *self,
    {
        SearchSelection {
            document_id: self.document_id.duplicate(),
            resume_version_id: self.resume_version_id.duplicate(),
            visible_epoch: self.visible_epoch,
        }
    }
}

/// Whether a selection still names what the current head shows.
#[derive(Clone, Debug, PartialEq, Eq)]
pub enum SearchSelectionResolution {
    Current { selection: SearchSelection },
    /// The document is projected with another version now.
    Stale,
    NotFound,
}

/// Which bound selection details exceeded.
#[derive(Clone, Copy, Debug, PartialEq, Eq, Structural)]
pub enum SearchSelectionLimit {
    VersionMetadata,
    Mentions,
}

/// A selection from a later head than the one read cannot be resolved.
pub fn selection_from_future(selection: &SearchSelection, head_visible_epoch: u64) -> (r: bool)
    ensures
        r == (selection.visible_epoch > head_visible_epoch),
{
    selection.visible_epoch > head_visible_epoch
}

/// Resolves a selection from what the store holds: the exact sealed
/// document and version pair, and the version the head projects for the
/// document. A missing pair or projection is not found; another projected
/// version makes the selection stale.
pub fn resolve_selection(
    selection: &SearchSelection,
    exact_sealed_pair: bool,
    active_version: Option<&ResumeVersionId>,
) -> (r: SearchSelectionResolution)
    ensures
        !exact_sealed_pair ==> r == SearchSelectionResolution::NotFound,
        exact_sealed_pair && active_version is None ==> r == SearchSelectionResolution::NotFound,
        exact_sealed_pair ==> (active_version matches Some(v) && v@ != selection.resume_version_id@
            ==> r == SearchSelectionResolution::Stale),
        exact_sealed_pair ==> (active_version matches Some(v) && v@ == selection.resume_version_id@
            ==> r == (SearchSelectionResolution::Current { selection: *selection })),
{
    if !exact_sealed_pair {
        return SearchSelectionResolution::NotFound;
    }
    match active_version {
        None => SearchSelectionResolution::NotFound,
        Some(v) => if !v.same_as(&selection.resume_version_id) {
            SearchSelectionResolution::Stale
        } else {
            SearchSelectionResolution::Current { selection: selection.duplicate() }
        },
    }
}

/// The strings a JSON text decodes to as an array of strings, as
/// `serde_json` decodes it; `None` where it is no such array.
pub uninterp spec fn spec_json_string_list(text: Seq<char>) -> Option<Seq<Seq<char>>>;

/// Calls `serde_json::from_str::<Vec<String>>`: the result is the crate's
/// decoding of `text` as an array of strings, or `None` where the crate
/// reports an error.
#[verifier::external_body]
fn json_string_list(text: &str) -> (r: Option<Vec<String>>)
    ensures
        match r {
            Some(v) => spec_json_string_list(text@) == Some(v@.map_values(|s: String| s@)),
            None => spec_json_string_list(text@) is None,
        },
{
    match serde_json::from_str::<Vec<String>>(text) {
        Ok(list) => Some(list),
        Err(_) => None,
    }
}

/// The stored metadata of a selected version, as read, but for its quality
/// score.
#[derive(Clone, Debug, PartialEq, Eq)]
pub struct SelectionVersionRow {
    pub source_revision_id: String,
    pub source_content_hash: String,
    pub source_byte_size: i64,
    pub normalized_text_hash: String,
    pub parse_version: String,
    pub schema_version: String,
    pub language_set_json: String,
    pub page_count: Option<i64>,
}

/// The bounded metadata of a selected version, but for its quality score.
#[derive(Clone, Debug, PartialEq, Eq)]
pub struct SelectionVersionFields {
    pub source_revision_id: SourceRevisionId,
    pub source_content_hash: ContentDigest,
    pub source_byte_size: u64,
    pub normalized_text_hash: ContentDigest,
    pub parse_version: String,
    pub schema_version: String,
    pub language_set: Vec<String>,
    pub page_count: Option<u32>,
}

/// Version metadata within bounds, or the note that it exceeds them.
#[derive(Clone, Debug, PartialEq, Eq)]
pub enum BoundedSelectionVersion {
    Version(SelectionVersionFields),
    LimitExceeded,
}

/// Byte length of a text.
pub open spec fn byte_len(text: Seq<char>) -> nat {
    encode_utf8(text).len()
}

/// The labels or the language set text are too long.
pub open spec fn version_labels_exceed(row: SelectionVersionRow) -> bool {
    ||| byte_len(row.parse_version@) > MAX_VERSION_LABEL_BYTES
    ||| byte_len(row.schema_version@) > MAX_VERSION_LABEL_BYTES
    ||| byte_len(row.language_set_json@) > MAX_LANGUAGE_SET_BYTES
}

/// The decoded language set has too many or too long languages.
pub open spec fn languages_exceed(languages: Seq<Seq<char>>) -> bool {
    ||| languages.len() > MAX_LANGUAGE_COUNT
    ||| exists|i: int| 0 <= i < languages.len() && byte_len(#[trigger] languages[i]) > MAX_LANGUAGE_BYTES
}

/// The outcome of bounding stored version metadata, given what its language
/// set text decodes to: labels and language set text are bounded first,
/// then the decoded language set; then the size, the page count, the
/// revision identifier and both digests must be valid, each with an error
/// that names its column.
pub open spec fn bounded_decoded_outcome(
    row: SelectionVersionRow,
    languages: Option<Seq<Seq<char>>>,
) -> Result<bool, MetaStoreError> {
    if version_labels_exceed(row) {
        Ok(false)
    } else if languages is None {
        Err(MetaStoreError::InvalidValue("resume_version.language_set"))
    } else if languages_exceed(languages.unwrap()) {
        Ok(false)
    } else if row.source_byte_size < 0 {
        Err(MetaStoreError::InvalidValue("source_revision.byte_size"))
    } else if row.page_count matches Some(p) && !(0 <= p <= u32::MAX) {
        Err(MetaStoreError::InvalidValue("resume_version.page_count"))
    } else if !valid_identifier(row.source_revision_id@) {
        Err(MetaStoreError::InvalidValue("resume_version.source_revision_id"))
    } else if !digest_ok(row.source_content_hash@) {
        Err(MetaStoreError::InvalidValue("source_revision.content_hash"))
    } else if !digest_ok(row.normalized_text_hash@) {
        Err(MetaStoreError::InvalidValue("resume_version.normalized_text_hash"))
    } else {
        Ok(true)
    }
}

/// The outcome of bounding stored version metadata, its language set text
/// decoded as `serde_json` decodes it.
pub open spec fn bounded_version_outcome(row: SelectionVersionRow) -> Result<bool, MetaStoreError> {
    bounded_decoded_outcome(row, spec_json_string_list(row.language_set_json@))
}

/// The view of an optional list of texts.
pub open spec fn opt_texts_view(list: Option<Vec<String>>) -> Option<Seq<Seq<char>>> {
    match list {
        Some(v) => Some(v@.map_values(|s: String| s@)),
        None => None,
    }
}

fn str_byte_len(text: &str) -> (r: usize)
    ensures
        r == byte_len(text@),
{
    text.as_bytes().len()
}

fn languages_within_bounds(language_set: &Vec<String>) -> (r: bool)
    ensures
        r == !languages_exceed(language_set@.map_values(|s: String| s@)),
{
    let ghost decoded = language_set@.map_values(|s: String| s@);
    if language_set.len() > MAX_LANGUAGE_COUNT {
        return false;
    }
    let mut i: usize = 0;
    while i < language_set.len()
        invariant
            i <= language_set.len(),
            language_set.len() <= MAX_LANGUAGE_COUNT,
            decoded == language_set@.map_values(|s: String| s@),
            forall|k: int| 0 <= k < i ==> byte_len(#[trigger] decoded[k]) <= MAX_LANGUAGE_BYTES,
        decreases language_set.len() - i,
    {
        if str_byte_len(language_set[i].as_str()) > MAX_LANGUAGE_BYTES {
            proof {
                assert(byte_len(decoded[i as int]) > MAX_LANGUAGE_BYTES);
            }
            return false;
        }
        i += 1;
    }
    true
}

/// Bounds the stored metadata of a selected version, given what its
/// language set text decodes to (`None` where it is no array of strings).
pub fn bound_decoded_selection_version(row: SelectionVersionRow, languages: Option<Vec<String>>) -> (r:
    Result<BoundedSelectionVersion, MetaStoreError>)
    ensures
        match r {
            Ok(BoundedSelectionVersion::LimitExceeded) => bounded_decoded_outcome(
                row,
                opt_texts_view(languages),
            ) == Ok::<bool, MetaStoreError>(false),
            Ok(BoundedSelectionVersion::Version(v)) => {
                &&& bounded_decoded_outcome(row, opt_texts_view(languages)) == Ok::<
                    bool,
                    MetaStoreError,
                >(true)
                &&& v.source_revision_id@ == row.source_revision_id@
                &&& v.source_content_hash@ == row.source_content_hash@
                &&& v.source_byte_size == row.source_byte_size
                &&& v.normalized_text_hash@ == row.normalized_text_hash@
                &&& v.parse_version@ == row.parse_version@
                &&& v.schema_version@ == row.schema_version@
                &&& opt_texts_view(languages) == Some(v.language_set@.map_values(|s: String| s@))
                &&& v.page_count == match row.page_count {
                    Some(p) => Some(p as u32),
                    None => None,
                }
            },
            Err(e) => bounded_decoded_outcome(row, opt_texts_view(languages)) == Err::<
                bool,
                MetaStoreError,
            >(e),
        },
{
    if str_byte_len(row.parse_version.as_str()) > MAX_VERSION_LABEL_BYTES || str_byte_len(
        row.schema_version.as_str(),
    ) > MAX_VERSION_LABEL_BYTES || str_byte_len(row.language_set_json.as_str())
        > MAX_LANGUAGE_SET_BYTES {
        return Ok(BoundedSelectionVersion::LimitExceeded);
    }
    let language_set = match languages {
        Some(list) => list,
        None => return Err(MetaStoreError::InvalidValue("resume_version.language_set")),
    };
    if !languages_within_bounds(&language_set) {
        return Ok(BoundedSelectionVersion::LimitExceeded);
    }
    if row.source_byte_size < 0 {
        return Err(MetaStoreError::InvalidValue("source_revision.byte_size"));
    }
    let page_count = match row.page_count {
        Some(p) => if 0 <= p && p <= 4294967295 {
            Some(p as u32)
        } else {
            return Err(MetaStoreError::InvalidValue("resume_version.page_count"));
        },
        None => None,
    };
    let source_revision_id = match SourceRevisionId::parse(row.source_revision_id.as_str()) {
        Ok(id) => id,
        Err(_) => return Err(MetaStoreError::InvalidValue("resume_version.source_revision_id")),
    };
    let source_content_hash = match ContentDigest::parse(row.source_content_hash.as_str()) {
        Some(d) => d,
        None => return Err(MetaStoreError::InvalidValue("source_revision.content_hash")),
    };
    let normalized_text_hash = match ContentDigest::parse(row.normalized_text_hash.as_str()) {
        Some(d) => d,
        None => return Err(MetaStoreError::InvalidValue("resume_version.normalized_text_hash")),
    };
    Ok(
        BoundedSelectionVersion::Version(
            SelectionVersionFields {
                source_revision_id,
                source_content_hash,
                source_byte_size: row.source_byte_size as u64,
                normalized_text_hash,
                parse_version: row.parse_version,
                schema_version: row.schema_version,
                language_set,
                page_count,
            },
        ),
    )
}

/// Bounds the stored metadata of a selected version, decoding its language
/// set with `serde_json`.
pub fn bound_selection_version(row: SelectionVersionRow) -> (r: Result<
    BoundedSelectionVersion,
    MetaStoreError,
>)
    ensures
        match r {
            Ok(BoundedSelectionVersion::LimitExceeded) => bounded_version_outcome(row) == Ok::<
                bool,
                MetaStoreError,
            >(false),
            Ok(BoundedSelectionVersion::Version(v)) => {
                &&& bounded_version_outcome(row) == Ok::<bool, MetaStoreError>(true)
                &&& v.source_revision_id@ == row.source_revision_id@
                &&& v.source_content_hash@ == row.source_content_hash@
                &&& v.source_byte_size == row.source_byte_size
                &&& v.normalized_text_hash@ == row.normalized_text_hash@
                &&& v.parse_version@ == row.parse_version@
                &&& v.schema_version@ == row.schema_version@
                &&& spec_json_string_list(row.language_set_json@) == Some(
                    v.language_set@.map_values(|s: String| s@),
                )
                &&& v.page_count == match row.page_count {
                    Some(p) => Some(p as u32),
                    None => None,
                }
            },
            Err(e) => bounded_version_outcome(row) == Err::<bool, MetaStoreError>(e),
        },
{
    let languages = json_string_list(row.language_set_json.as_str());
    bound_decoded_selection_version(row, languages)
}


/// Stored metadata lengths of a document and their bounds, in order: source
/// URI, normalized path, file name and extension.
pub open spec fn document_length_bounds(
    source_uri: i64,
    normalized_path: i64,
    file_name: i64,
    extension: i64,
) -> Seq<(i64, u64)> {
    seq![
        (source_uri, MAX_DOCUMENT_SOURCE_URI_BYTES),
        (normalized_path, MAX_DOCUMENT_NORMALIZED_PATH_BYTES),
        (file_name, MAX_DOCUMENT_FILE_NAME_BYTES),
        (extension, MAX_DOCUMENT_EXTENSION_BYTES),
    ]
}

/// The outcome of checking document metadata lengths in order: a negative
/// length is an invalid value, a length beyond its bound ends the check with
/// `false`, and all lengths within bounds give `true`.
pub open spec fn document_lengths_outcome(bounds: Seq<(i64, u64)>) -> Result<bool, MetaStoreError>
    decreases bounds.len(),
{
    if bounds.len() == 0 {
        Ok(true)
    } else if bounds[0].0 < 0 {
        Err(MetaStoreError::InvalidValue("document.metadata_length"))
    } else if bounds[0].0 > bounds[0].1 {
        Ok(false)
    } else {
        document_lengths_outcome(bounds.drop_first())
    }
}

fn length_step(actual: i64, maximum: u64) -> (r: Result<bool, MetaStoreError>)
    ensures
        actual < 0 ==> r == Err::<bool, MetaStoreError>(
            MetaStoreError::InvalidValue("document.metadata_length"),
        ),
        actual >= 0 ==> r == Ok::<bool, MetaStoreError>(actual <= maximum),
{
    if actual < 0 {
        Err(MetaStoreError::InvalidValue("document.metadata_length"))
    } else {
        Ok(actual as u64 <= maximum)
    }
}

/// Checks the stored metadata lengths of a selected document: `true` when
/// all are within bounds, `false` when one exceeds its bound.
pub fn document_lengths_within_bounds(
    source_uri: i64,
    normalized_path: i64,
    file_name: i64,
    extension: i64,
) -> (r: Result<bool, MetaStoreError>)
    ensures
        r == document_lengths_outcome(
            document_length_bounds(source_uri, normalized_path, file_name, extension),
        ),
{
    let ghost b = document_length_bounds(source_uri, normalized_path, file_name, extension);
    proof {
        reveal_with_fuel(document_lengths_outcome, 5);
        assert(b.drop_first() =~= seq![b[1], b[2], b[3]]);
        assert(b.drop_first().drop_first() =~= seq![b[2], b[3]]);
        assert(b.drop_first().drop_first().drop_first() =~= seq![b[3]]);
        assert(b.drop_first().drop_first().drop_first().drop_first() =~= Seq::<(i64, u64)>::empty());
    }
    if !length_step(source_uri, MAX_DOCUMENT_SOURCE_URI_BYTES)? {
        return Ok(false);
    }
    if !length_step(normalized_path, MAX_DOCUMENT_NORMALIZED_PATH_BYTES)? {
        return Ok(false);
    }
    if !length_step(file_name, MAX_DOCUMENT_FILE_NAME_BYTES)? {
        return Ok(false);
    }
    length_step(extension, MAX_DOCUMENT_EXTENSION_BYTES)
}

/// Whether the mentions of a selected version are within bounds: none is
/// oversized and at most `MAX_SEARCH_SELECTION_MENTIONS` were read (the read
/// asks for one more, so more than the bound shows as too many).
pub fn mentions_within_bounds(any_oversized: bool, read_count: usize) -> (r: bool)
    ensures
        r == (!any_oversized && read_count <= MAX_SEARCH_SELECTION_MENTIONS),
{
    !any_oversized && read_count <= MAX_SEARCH_SELECTION_MENTIONS
}

/// Parses the sealed candidate assignment of a version, if any.
pub fn parse_candidate_assignment(candidate: Option<&str>) -> (r: Result<
    Option<CandidateId>,
    MetaStoreError,
>)
    ensures
        match candidate {
            None => r == Ok::<Option<CandidateId>, MetaStoreError>(None),
            Some(c) => if valid_identifier(c@) {
                r matches Ok(Some(id)) && id@ == c@
            } else {
                r == Err::<Option<CandidateId>, MetaStoreError>(
                    MetaStoreError::InvalidValue("resume_version_candidate.candidate_id"),
                )
            },
        },
{
    match candidate {
        None => Ok(None),
        Some(c) => match CandidateId::parse(c) {
            Ok(id) => Ok(Some(id)),
            Err(_) => Err(MetaStoreError::InvalidValue("resume_version_candidate.candidate_id")),
        },
    }
}

} // verus!
