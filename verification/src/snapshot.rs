use vstd::prelude::*;
use vstd::utf8::*;
use crate::digest::digest_text;
use crate::error::MetaStoreError;
use crate::projection_digest::{
    bytes_less, bytes_less_exec, lemma_bytes_less_irreflexive, lemma_bytes_less_total,
    lemma_bytes_less_transitive, text_pairs_ascending, text_pairs_encoding, text_pairs_view, SearchProjectionDigest,
};
use crate::ids::{valid_identifier, ActiveSearchProjection, DocumentId, ResumeVersionId};
use crate::publication_model::{SearchPublicationRecord, SearchPublicationState};
use crate::text::text_equal;

verus! {

/// Why the search head is being repaired.
#[derive(Clone, Copy, Debug, PartialEq, Eq, Structural)]
pub enum SearchRepairReason {
    MigrationRebuild,
    ArtifactUnavailable,
    SourceUnavailable,
    RuntimeInvariant,
}

/// Storage label of a repair reason.
pub open spec fn repair_reason_label(value: SearchRepairReason) -> Seq<char> {
    match value {
        SearchRepairReason::MigrationRebuild => "migration_rebuild"@,
        SearchRepairReason::ArtifactUnavailable => "artifact_unavailable"@,
        SearchRepairReason::SourceUnavailable => "source_unavailable"@,
        SearchRepairReason::RuntimeInvariant => "runtime_invariant"@,
    }
}

/// Repair reason named by a storage label, if any.
pub open spec fn repair_reason_from_label(label: Seq<char>) -> Option<SearchRepairReason> {
    if label == "migration_rebuild"@ {
        Some(SearchRepairReason::MigrationRebuild)
    } else if label == "artifact_unavailable"@ {
        Some(SearchRepairReason::ArtifactUnavailable)
    } else if label == "source_unavailable"@ {
        Some(SearchRepairReason::SourceUnavailable)
    } else if label == "runtime_invariant"@ {
        Some(SearchRepairReason::RuntimeInvariant)
    } else {
        None
    }
}

/// Parsing the label of a repair reason gives it back.
pub proof fn repair_reason_label_round_trip(value: SearchRepairReason)
    ensures
        repair_reason_from_label(repair_reason_label(value)) == Some(value),
{
    reveal_strlit("migration_rebuild");
    reveal_strlit("artifact_unavailable");
    reveal_strlit("source_unavailable");
    reveal_strlit("runtime_invariant");
    assert("artifact_unavailable"@.len() != "migration_rebuild"@.len());
    assert("source_unavailable"@.len() != "migration_rebuild"@.len());
    assert("source_unavailable"@.len() != "artifact_unavailable"@.len());
    assert("runtime_invariant"@[0] != "migration_rebuild"@[0]);
    assert("runtime_invariant"@.len() != "artifact_unavailable"@.len());
    assert("runtime_invariant"@.len() != "source_unavailable"@.len());
}

impl SearchRepairReason {
    pub fn as_str(self) -> (r: &'static str)
        ensures
            r@ == repair_reason_label(self),
    {
        match self {
            SearchRepairReason::MigrationRebuild => "migration_rebuild",
            SearchRepairReason::ArtifactUnavailable => "artifact_unavailable",
            SearchRepairReason::SourceUnavailable => "source_unavailable",
            SearchRepairReason::RuntimeInvariant => "runtime_invariant",
        }
    }
}

/// Reads a stored repair reason.
pub fn search_repair_reason_from_storage(value: &str) -> (r: Option<SearchRepairReason>)
    ensures
        r == repair_reason_from_label(value@),
{
    if text_equal(value, "migration_rebuild") {
        Some(SearchRepairReason::MigrationRebuild)
    } else if text_equal(value, "artifact_unavailable") {
        Some(SearchRepairReason::ArtifactUnavailable)
    } else if text_equal(value, "source_unavailable") {
        Some(SearchRepairReason::SourceUnavailable)
    } else if text_equal(value, "runtime_invariant") {
        Some(SearchRepairReason::RuntimeInvariant)
    } else {
        None
    }
}
/// Why search metadata cannot be read now.
#[derive(Clone, Copy, Debug, PartialEq, Eq, Structural)]
pub enum SearchMetadataUnavailable {
    Repairing(SearchRepairReason),
    RepairBlocked(SearchRepairReason),
}

/// Error of an application read of the ready search publication.
#[derive(Clone, Debug, PartialEq, Eq)]
pub enum SearchMetadataReadError {
    Unavailable(SearchMetadataUnavailable),
    Store(MetaStoreError),
}

impl SearchMetadataReadError {
    pub fn unavailable(&self) -> (r: Option<SearchMetadataUnavailable>)
        ensures
            r == (match self {
                SearchMetadataReadError::Unavailable(u) => Some(*u),
                SearchMetadataReadError::Store(_) => None,
            }),
    {
        match self {
            SearchMetadataReadError::Unavailable(u) => Some(*u),
            SearchMetadataReadError::Store(_) => None,
        }
    }

    pub fn store_error(&self) -> (r: Option<&MetaStoreError>)
        ensures
            r == (match self {
                SearchMetadataReadError::Unavailable(_) => None,
                SearchMetadataReadError::Store(e) => Some(e),
            }),
    {
        match self {
            SearchMetadataReadError::Unavailable(_) => None,
            SearchMetadataReadError::Store(e) => Some(e),
        }
    }
}

/// Error of a read transaction on the ready search publication whose
/// operation may fail with its own error.
#[derive(Clone, Debug, PartialEq, Eq)]
pub enum SearchMetadataTransactionError<E> {
    Unavailable(SearchMetadataUnavailable),
    Store(MetaStoreError),
    Operation(E),
}

impl<E> SearchMetadataTransactionError<E> {
    pub fn store_error(&self) -> (r: Option<&MetaStoreError>)
        ensures
            r == (match self {
                SearchMetadataTransactionError::Store(e) => Some(e),
                _ => None,
            }),
    {
        match self {
            SearchMetadataTransactionError::Store(e) => Some(e),
            _ => None,
        }
    }

    pub fn operation_error(&self) -> (r: Option<&E>)
        ensures
            r == (match self {
                SearchMetadataTransactionError::Operation(e) => Some(e),
                _ => None,
            }),
    {
        match self {
            SearchMetadataTransactionError::Operation(e) => Some(e),
            _ => None,
        }
    }

    pub fn unavailable(&self) -> (r: Option<SearchMetadataUnavailable>)
        ensures
            r == (match self {
                SearchMetadataTransactionError::Unavailable(u) => Some(*u),
                _ => None,
            }),
    {
        match self {
            SearchMetadataTransactionError::Unavailable(u) => Some(*u),
            _ => None,
        }
    }
}

/// Why the ready head cannot be opened.
#[derive(Clone, Debug, PartialEq, Eq)]
pub enum SearchMetadataOpenError {
    Unavailable(SearchMetadataUnavailable),
    Store(MetaStoreError),
}

/// The ready search head: its generation, visible epoch and publication.
#[derive(Clone, Debug, PartialEq, Eq)]
pub struct SearchMetadataHead {
    pub generation: String,
    pub visible_epoch: u64,
    pub publication: SearchPublicationRecord,
}

/// What the stored head state allows: a ready head without repair reason
/// and with a generation gives that generation; a repairing or blocked head
/// with a known reason is unavailable; anything else breaks a storage
/// invariant.
pub open spec fn head_state_outcome(
    service_state: Seq<char>,
    generation: Option<Seq<char>>,
    repair_reason: Option<Seq<char>>,
) -> Result<Seq<char>, SearchMetadataOpenError> {
    if service_state != "ready"@ {
        match repair_reason {
            Some(label) => match repair_reason_from_label(label) {
                Some(reason) => if service_state == "repairing"@ {
                    Err(
                        SearchMetadataOpenError::Unavailable(
                            SearchMetadataUnavailable::Repairing(reason),
                        ),
                    )
                } else if service_state == "repair_blocked"@ {
                    Err(
                        SearchMetadataOpenError::Unavailable(
                            SearchMetadataUnavailable::RepairBlocked(reason),
                        ),
                    )
                } else {
                    Err(SearchMetadataOpenError::Store(MetaStoreError::StorageInvariant))
                },
                None => Err(SearchMetadataOpenError::Store(MetaStoreError::StorageInvariant)),
            },
            None => Err(SearchMetadataOpenError::Store(MetaStoreError::StorageInvariant)),
        }
    } else if repair_reason is Some || generation is None {
        Err(SearchMetadataOpenError::Store(MetaStoreError::StorageInvariant))
    } else {
        Ok(generation.unwrap())
    }
}

/// The head state is reported as stored: a generation only for a ready head
/// without repair reason; a repairing or blocked head is unavailable for
/// exactly the repair reason stored with it, and every stored reason of such
/// a head is reported as itself.
pub proof fn head_state_reports_the_stored_reason(
    service_state: Seq<char>,
    generation: Option<Seq<char>>,
    repair_reason: Option<Seq<char>>,
)
    ensures
        head_state_outcome(service_state, generation, repair_reason) matches Ok(g)
            ==> service_state == "ready"@ && repair_reason is None && generation == Some(g),
        head_state_outcome(service_state, generation, repair_reason) matches Err(
            SearchMetadataOpenError::Unavailable(SearchMetadataUnavailable::Repairing(x)),
        ) ==> service_state == "repairing"@ && repair_reason == Some(repair_reason_label(x)),
        head_state_outcome(service_state, generation, repair_reason) matches Err(
            SearchMetadataOpenError::Unavailable(SearchMetadataUnavailable::RepairBlocked(x)),
        ) ==> service_state == "repair_blocked"@ && repair_reason == Some(repair_reason_label(x)),
        forall|x: SearchRepairReason|
            service_state == "repairing"@ && repair_reason == Some(#[trigger] repair_reason_label(x))
                ==> head_state_outcome(service_state, generation, repair_reason) == Err::<
                Seq<char>,
                SearchMetadataOpenError,
            >(SearchMetadataOpenError::Unavailable(SearchMetadataUnavailable::Repairing(x))),
        forall|x: SearchRepairReason|
            service_state == "repair_blocked"@ && repair_reason == Some(
                #[trigger] repair_reason_label(x),
            ) ==> head_state_outcome(service_state, generation, repair_reason) == Err::<
                Seq<char>,
                SearchMetadataOpenError,
            >(SearchMetadataOpenError::Unavailable(SearchMetadataUnavailable::RepairBlocked(x))),
{
    reveal_strlit("ready");
    reveal_strlit("repairing");
    reveal_strlit("repair_blocked");
    assert("repairing"@.len() != "ready"@.len() && "repair_blocked"@.len() != "ready"@.len()
        && "repair_blocked"@.len() != "repairing"@.len());
    assert forall|x: SearchRepairReason|
        service_state == "repairing"@ && repair_reason == Some(#[trigger] repair_reason_label(x))
            implies head_state_outcome(service_state, generation, repair_reason) == Err::<
            Seq<char>,
            SearchMetadataOpenError,
        >(SearchMetadataOpenError::Unavailable(SearchMetadataUnavailable::Repairing(x))) by {
        repair_reason_label_round_trip(x);
    }
    assert forall|x: SearchRepairReason|
        service_state == "repair_blocked"@ && repair_reason == Some(
            #[trigger] repair_reason_label(x),
        ) implies head_state_outcome(service_state, generation, repair_reason) == Err::<
            Seq<char>,
            SearchMetadataOpenError,
        >(SearchMetadataOpenError::Unavailable(SearchMetadataUnavailable::RepairBlocked(x))) by {
        repair_reason_label_round_trip(x);
    }
}

/// Checks the stored head state and gives the generation of a ready head.
pub fn ready_head_generation(
    service_state: &str,
    generation: Option<String>,
    repair_reason: Option<&str>,
) -> (r: Result<String, SearchMetadataOpenError>)
    ensures
        match r {
            Ok(g) => head_state_outcome(
                service_state@,
                match generation {
                    Some(x) => Some(x@),
                    None => None,
                },
                match repair_reason {
                    Some(x) => Some(x@),
                    None => None,
                },
            ) == Ok::<Seq<char>, SearchMetadataOpenError>(g@),
            Err(e) => head_state_outcome(
                service_state@,
                match generation {
                    Some(x) => Some(x@),
                    None => None,
                },
                match repair_reason {
                    Some(x) => Some(x@),
                    None => None,
                },
            ) == Err::<Seq<char>, SearchMetadataOpenError>(e),
        },
        r matches Ok(g) ==> (service_state@ == "ready"@ && repair_reason is None && (match generation {
            Some(x) => Some(x@),
            None => None,
        }) == Some(g@)),
        r matches Err(SearchMetadataOpenError::Unavailable(SearchMetadataUnavailable::Repairing(x)))
            ==> (service_state@ == "repairing"@ && (match repair_reason {
            Some(l) => Some(l@),
            None => None,
        }) == Some(repair_reason_label(x))),
        r matches Err(
            SearchMetadataOpenError::Unavailable(SearchMetadataUnavailable::RepairBlocked(x)),
        ) ==> (service_state@ == "repair_blocked"@ && (match repair_reason {
            Some(l) => Some(l@),
            None => None,
        }) == Some(repair_reason_label(x))),
{
    let ghost generation_view = match generation {
        Some(ref x) => Some(x@),
        None => None,
    };
    proof {
        head_state_reports_the_stored_reason(
            service_state@,
            generation_view,
            match repair_reason {
                Some(x) => Some(x@),
                None => None,
            },
        );
    }
    if !text_equal(service_state, "ready") {
        let reason = match repair_reason {
            Some(label) => match search_repair_reason_from_storage(label) {
                Some(reason) => reason,
                None => return Err(SearchMetadataOpenError::Store(MetaStoreError::StorageInvariant)),
            },
            None => return Err(SearchMetadataOpenError::Store(MetaStoreError::StorageInvariant)),
        };
        if text_equal(service_state, "repairing") {
            return Err(
                SearchMetadataOpenError::Unavailable(SearchMetadataUnavailable::Repairing(reason)),
            );
        } else if text_equal(service_state, "repair_blocked") {
            return Err(
                SearchMetadataOpenError::Unavailable(
                    SearchMetadataUnavailable::RepairBlocked(reason),
                ),
            );
        } else {
            return Err(SearchMetadataOpenError::Store(MetaStoreError::StorageInvariant));
        }
    }
    if repair_reason.is_some() {
        return Err(SearchMetadataOpenError::Store(MetaStoreError::StorageInvariant));
    }
    match generation {
        Some(g) => Ok(g),
        None => Err(SearchMetadataOpenError::Store(MetaStoreError::StorageInvariant)),
    }
}

/// The ready head of a generation: its publication must be recorded and
/// ready, and the head's visible epoch must be one past the epoch the
/// publication expected.
pub fn ready_head(
    generation: String,
    visible_epoch: i64,
    publication: Option<SearchPublicationRecord>,
) -> (r: Result<SearchMetadataHead, SearchMetadataOpenError>)
    ensures
        match r {
            Ok(head) => {
                &&& publication matches Some(p) && p.state == SearchPublicationState::Ready
                    && visible_epoch >= 0 && p.expected_visible_epoch + 1 == visible_epoch
                &&& head.generation == generation
                &&& head.visible_epoch == visible_epoch
                &&& Some(head.publication) == publication
            },
            Err(e) => e == SearchMetadataOpenError::Store(MetaStoreError::StorageInvariant) && !(
            publication matches Some(p) && p.state == SearchPublicationState::Ready && visible_epoch
                >= 0 && p.expected_visible_epoch + 1 == visible_epoch),
        },
{
    let publication = match publication {
        Some(p) => match p.state {
            SearchPublicationState::Ready => p,
            _ => return Err(SearchMetadataOpenError::Store(MetaStoreError::StorageInvariant)),
        },
        None => return Err(SearchMetadataOpenError::Store(MetaStoreError::StorageInvariant)),
    };
    if visible_epoch < 0 {
        return Err(SearchMetadataOpenError::Store(MetaStoreError::StorageInvariant));
    }
    let epoch = visible_epoch as u64;
    match publication.expected_visible_epoch.checked_add(1) {
        Some(next) => if next != epoch {
            return Err(SearchMetadataOpenError::Store(MetaStoreError::StorageInvariant));
        },
        None => return Err(SearchMetadataOpenError::Store(MetaStoreError::StorageInvariant)),
    }
    Ok(SearchMetadataHead { generation, visible_epoch: epoch, publication })
}

/// Reads a stored projection row; a malformed identifier names its column.
pub fn projection_from_row(document_id: &str, resume_version_id: &str) -> (r: Result<
    ActiveSearchProjection,
    MetaStoreError,
>)
    ensures
        match r {
            Ok(p) => valid_identifier(document_id@) && valid_identifier(resume_version_id@)
                && p.document_id@ == document_id@ && p.resume_version_id@ == resume_version_id@,
            Err(e) => if !valid_identifier(document_id@) {
                e == MetaStoreError::InvalidValue("active_search_projection.document_id")
            } else {
                !valid_identifier(resume_version_id@) && e == MetaStoreError::InvalidValue(
                    "active_search_projection.resume_version_id",
                )
            },
        },
{
    let document_id = match DocumentId::parse(document_id) {
        Ok(d) => d,
        Err(_) => return Err(MetaStoreError::InvalidValue("active_search_projection.document_id")),
    };
    let resume_version_id = match ResumeVersionId::parse(resume_version_id) {
        Ok(v) => v,
        Err(_) => return Err(
            MetaStoreError::InvalidValue("active_search_projection.resume_version_id"),
        ),
    };
    Ok(ActiveSearchProjection { document_id, resume_version_id })
}

/// The error of reading stored projection pairs in order, if any: the first
/// pair with a malformed identifier names its column.
pub open spec fn pairs_parse_error(pairs: Seq<(Seq<char>, Seq<char>)>) -> Option<MetaStoreError>
    decreases pairs.len(),
{
    if pairs.len() == 0 {
        None
    } else if !valid_identifier(pairs[0].0) {
        Some(MetaStoreError::InvalidValue("active_search_projection.document_id"))
    } else if !valid_identifier(pairs[0].1) {
        Some(MetaStoreError::InvalidValue("active_search_projection.resume_version_id"))
    } else {
        pairs_parse_error(pairs.drop_first())
    }
}

/// The active projection of the head is exact: no row of another generation,
/// no row that is unsealed, unclassified for the head's epoch or not
/// searchable with the revision's content, documents in ascending order, as
/// many as the full-text snapshot counts, and the digest the publication
/// recorded.
pub open spec fn projection_audit_ok(
    head: SearchMetadataHead,
    mismatched: i64,
    invalid_active: i64,
    pairs: Seq<(Seq<char>, Seq<char>)>,
) -> bool {
    &&& text_pairs_ascending(pairs)
    &&& mismatched == 0
    &&& invalid_active == 0
    &&& head.publication.fulltext matches Some(f) && pairs.len() == f@.document_count
    &&& encode_utf8(head.publication.projection_digest@) == digest_text(text_pairs_encoding(pairs))
}

/// Audits the active projection of the ready head from what the store
/// counted and the ordered document and version pairs of the head's
/// generation, and returns the projection.
pub fn audit_active_projection(
    head: &SearchMetadataHead,
    mismatched: i64,
    invalid_active: i64,
    pairs: &[(String, String)],
) -> (r: Result<Vec<ActiveSearchProjection>, MetaStoreError>)
    ensures
        !projection_audit_ok(*head, mismatched, invalid_active, text_pairs_view(pairs@)) ==> r
            == Err::<Vec<ActiveSearchProjection>, MetaStoreError>(MetaStoreError::StorageInvariant),
        projection_audit_ok(*head, mismatched, invalid_active, text_pairs_view(pairs@)) ==> match r {
            Ok(v) => pairs_parse_error(text_pairs_view(pairs@)) is None && v@.len() == pairs@.len()
                && forall|i: int|
                0 <= i < pairs@.len() ==> (#[trigger] v@[i]).document_id@ == pairs@[i].0@
                    && v@[i].resume_version_id@ == pairs@[i].1@,
            Err(e) => pairs_parse_error(text_pairs_view(pairs@)) == Some(e),
        },
{
    let ghost tp = text_pairs_view(pairs@);
    let digest = match SearchProjectionDigest::from_text_pairs(pairs) {
        Some(d) => d,
        None => return Err(MetaStoreError::StorageInvariant),
    };
    let expected = match &head.publication.fulltext {
        Some(f) => f.document_count(),
        None => return Err(MetaStoreError::StorageInvariant),
    };
    proof {
        encode_utf8_decode_utf8(digest@);
        encode_utf8_decode_utf8(head.publication.projection_digest@);
    }
    if mismatched != 0 || invalid_active != 0 || pairs.len() as u64 != expected
        || !digest.same_as(&head.publication.projection_digest) {
        return Err(MetaStoreError::StorageInvariant);
    }
    let mut out: Vec<ActiveSearchProjection> = Vec::new();
    let mut i: usize = 0;
    assert(tp.skip(0) =~= tp);
    while i < pairs.len()
        invariant
            i <= pairs.len(),
            tp == text_pairs_view(pairs@),
            projection_audit_ok(*head, mismatched, invalid_active, tp),
            out@.len() == i,
            pairs_parse_error(tp) == pairs_parse_error(tp.skip(i as int)),
            forall|k: int|
                0 <= k < i ==> (#[trigger] out@[k]).document_id@ == pairs@[k].0@
                    && out@[k].resume_version_id@ == pairs@[k].1@,
        decreases pairs.len() - i,
    {
        assert(tp.skip(i as int).drop_first() =~= tp.skip(i + 1));
        assert(tp.skip(i as int)[0] == tp[i as int]);
        let p = projection_from_row(pairs[i].0.as_str(), pairs[i].1.as_str())?;
        out.push(p);
        i += 1;
    }
    assert(tp.skip(pairs.len() as int) =~= Seq::<(Seq<char>, Seq<char>)>::empty());
    Ok(out)
}

/// An active projection snapshot is exact: nothing of another generation,
/// nothing invalid, documents in ascending order, the expected number of
/// pairs and the expected digest.
pub open spec fn projection_snapshot_ok(
    mismatched: i64,
    invalid: i64,
    pairs: Seq<(Seq<char>, Seq<char>)>,
    expected_count: u64,
    expected_digest: Seq<char>,
) -> bool {
    &&& text_pairs_ascending(pairs)
    &&& mismatched == 0
    &&& invalid == 0
    &&& pairs.len() == expected_count
    &&& encode_utf8(expected_digest) == digest_text(text_pairs_encoding(pairs))
}

/// Validates an active projection snapshot from what the store counted and
/// the ordered pairs of its generation.
pub fn validate_projection_snapshot(
    mismatched: i64,
    invalid: i64,
    pairs: &[(String, String)],
    expected_count: u64,
    expected_digest: &SearchProjectionDigest,
) -> (r: Result<(), MetaStoreError>)
    ensures
        r is Ok <==> projection_snapshot_ok(
            mismatched,
            invalid,
            text_pairs_view(pairs@),
            expected_count,
            expected_digest@,
        ),
        r is Err ==> r == Err::<(), MetaStoreError>(MetaStoreError::StorageInvariant),
{
    let digest = match SearchProjectionDigest::from_text_pairs(pairs) {
        Some(d) => d,
        None => return Err(MetaStoreError::StorageInvariant),
    };
    proof {
        encode_utf8_decode_utf8(digest@);
        encode_utf8_decode_utf8(expected_digest@);
    }
    if mismatched != 0 || invalid != 0 || pairs.len() as u64 != expected_count || !digest.same_as(
        expected_digest,
    ) {
        return Err(MetaStoreError::StorageInvariant);
    }
    Ok(())
}

/// Whether texts ascend strictly by their UTF-8 bytes, the order of
/// `String`.
pub open spec fn texts_ascending(v: Seq<Seq<char>>) -> bool {
    forall|i: int, j: int|
        0 <= i < j < v.len() ==> bytes_less(#[trigger] encode_utf8(v[i]), #[trigger] encode_utf8(v[j]))
}

proof fn lemma_ascending_no_duplicates(v: Seq<Seq<char>>)
    requires
        texts_ascending(v),
    ensures
        v.no_duplicates(),
{
    assert forall|i: int, j: int| 0 <= i < v.len() && 0 <= j < v.len() && i != j implies v[i] != v[j] by {
        if v[i] == v[j] {
            lemma_bytes_less_irreflexive(encode_utf8(v[i]));
            if i < j {
                assert(bytes_less(encode_utf8(v[i]), encode_utf8(v[j])));
            } else {
                assert(bytes_less(encode_utf8(v[j]), encode_utf8(v[i])));
            }
        }
    }
}

/// Inserts a text at its place in an ascending list, unless it is there.
fn insert_sorted(items: &mut Vec<String>, value: String)
    requires
        texts_ascending(old(items)@.map_values(|s: String| s@)),
    ensures
        texts_ascending(final(items)@.map_values(|s: String| s@)),
        final(items)@.map_values(|s: String| s@).to_set() == old(items)@.map_values(
            |s: String| s@,
        ).to_set().insert(value@),
{
    let ghost before = items@.map_values(|s: String| s@);
    let mut k: usize = 0;
    while k < items.len()
        invariant
            k <= items.len(),
            before == items@.map_values(|s: String| s@),
            forall|m: int| 0 <= m < k ==> bytes_less(#[trigger] encode_utf8(before[m]), encode_utf8(value@)),
        ensures
            k <= items.len(),
            before == items@.map_values(|s: String| s@),
            forall|m: int| 0 <= m < k ==> bytes_less(#[trigger] encode_utf8(before[m]), encode_utf8(value@)),
            k < items.len() ==> !bytes_less(encode_utf8(before[k as int]), encode_utf8(value@)),
        decreases items.len() - k,
    {
        if !bytes_less_exec(items[k].as_str().as_bytes(), value.as_str().as_bytes()) {
            break;
        }
        k += 1;
    }
    if k < items.len() && text_equal(items[k].as_str(), value.as_str()) {
        proof {
            assert(before[k as int] == value@);
            assert(before.to_set().insert(value@) =~= before.to_set());
        }
        return;
    }
    let ghost v = value@;
    items.insert(k, value);
    proof {
        let after = items@.map_values(|s: String| s@);
        assert(after =~= before.insert(k as int, v));
        if k < before.len() {
            if encode_utf8(before[k as int]) == encode_utf8(v) {
                encode_utf8_decode_utf8(before[k as int]);
                encode_utf8_decode_utf8(v);
            }
            lemma_bytes_less_total(encode_utf8(before[k as int]), encode_utf8(v));
        }
        assert forall|i: int, j: int| 0 <= i < j < after.len() implies bytes_less(
            #[trigger] encode_utf8(after[i]),
            #[trigger] encode_utf8(after[j]),
        ) by {
            if j < k {
                assert(after[i] == before[i] && after[j] == before[j]);
            } else if j == k {
                assert(after[i] == before[i]);
            } else if i < k {
                assert(after[i] == before[i] && after[j] == before[j - 1]);
            } else if i == k {
                assert(after[j] == before[j - 1]);
                if j - 1 > k {
                    assert(bytes_less(encode_utf8(before[k as int]), encode_utf8(before[j - 1])));
                    lemma_bytes_less_transitive(
                        encode_utf8(v),
                        encode_utf8(before[k as int]),
                        encode_utf8(before[j - 1]),
                    );
                }
            } else {
                assert(after[i] == before[i - 1] && after[j] == before[j - 1]);
            }
        }
        assert forall|x: Seq<char>| after.to_set().contains(x) <==> before.to_set().insert(v).contains(x) by {
            if after.contains(x) {
                let i = choose|i: int| 0 <= i < after.len() && after[i] == x;
                if i < k {
                    assert(before[i] == x);
                } else if i > k {
                    assert(before[i - 1] == x);
                }
            }
            if before.contains(x) {
                let i = choose|i: int| 0 <= i < before.len() && before[i] == x;
                if i < k {
                    assert(after[i] == x);
                } else {
                    assert(after[i + 1] == x);
                }
            }
            if x == v {
                assert(after[k as int] == x);
            }
        }
        assert(after.to_set() =~= before.to_set().insert(v));
    }
}

/// The generations whose artifacts must be kept: the head's, every
/// publication still in flight, and the most recent ready ones; each once,
/// in ascending order.
pub fn retention_generations(
    head: Option<String>,
    in_flight: Vec<String>,
    recent_ready: Vec<String>,
) -> (r: Vec<String>)
    ensures
        texts_ascending(r@.map_values(|s: String| s@)),
        r@.map_values(|s: String| s@).no_duplicates(),
        r@.map_values(|s: String| s@).to_set() == (match head {
            Some(h) => set![h@],
            None => Set::<Seq<char>>::empty(),
        }).union(in_flight@.map_values(|s: String| s@).to_set()).union(
            recent_ready@.map_values(|s: String| s@).to_set(),
        ),
{
    let mut out: Vec<String> = Vec::new();
    let ghost head_set = match head {
        Some(ref h) => set![h@],
        None => Set::<Seq<char>>::empty(),
    };
    let ghost fv = in_flight@.map_values(|s: String| s@);
    let ghost rv = recent_ready@.map_values(|s: String| s@);
    proof {
        assert(out@.map_values(|s: String| s@) =~= Seq::<Seq<char>>::empty());
    }
    match head {
        Some(h) => {
            insert_sorted(&mut out, h);
        },
        None => {},
    }
    assert(out@.map_values(|s: String| s@).to_set() =~= head_set);
    let mut i: usize = 0;
    while i < in_flight.len()
        invariant
            i <= in_flight.len(),
            fv == in_flight@.map_values(|s: String| s@),
            texts_ascending(out@.map_values(|s: String| s@)),
            out@.map_values(|s: String| s@).to_set() == head_set.union(fv.take(i as int).to_set()),
        decreases in_flight.len() - i,
    {
        insert_sorted(&mut out, in_flight[i].clone());
        assert(fv.take(i + 1) =~= fv.take(i as int).push(fv[i as int]));
        proof {
            fv.take(i as int).lemma_push_to_set_commute(fv[i as int]);
        }
        assert(out@.map_values(|s: String| s@).to_set() =~= head_set.union(
            fv.take(i + 1).to_set(),
        ));
        i += 1;
    }
    assert(fv.take(in_flight.len() as int) =~= fv);
    let mut j: usize = 0;
    while j < recent_ready.len()
        invariant
            j <= recent_ready.len(),
            rv == recent_ready@.map_values(|s: String| s@),
            texts_ascending(out@.map_values(|s: String| s@)),
            out@.map_values(|s: String| s@).to_set() == head_set.union(fv.to_set()).union(
                rv.take(j as int).to_set(),
            ),
        decreases recent_ready.len() - j,
    {
        insert_sorted(&mut out, recent_ready[j].clone());
        assert(rv.take(j + 1) =~= rv.take(j as int).push(rv[j as int]));
        proof {
            rv.take(j as int).lemma_push_to_set_commute(rv[j as int]);
        }
        assert(out@.map_values(|s: String| s@).to_set() =~= head_set.union(fv.to_set()).union(
            rv.take(j + 1).to_set(),
        ));
        j += 1;
    }
    assert(rv.take(recent_ready.len() as int) =~= rv);
    proof {
        lemma_ascending_no_duplicates(out@.map_values(|s: String| s@));
    }
    out
}

} // verus!
