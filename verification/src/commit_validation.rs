use vstd::prelude::*;
use vstd::utf8::*;
use crate::error::{publication_error, MetaStoreError, SearchPublicationFailure};
use crate::ids::{ActiveSearchProjection, DocumentId};
use crate::projection_digest::{documents_ascending, projection_digest_text, SearchProjectionDigest};
use crate::publication_model::{
    DocumentStatus, SearchPublicationCommit, SearchPublicationRecord, TerminalDocumentUpdate,
};
use crate::publication_validation::{
    failure_result, is_stable_nonsearch_terminal, is_valid_generation, stable_nonsearch_terminal,
    valid_generation,
};
use crate::text::text_equal;

verus! {

/// No document and no resume version occurs twice in a projection list.
pub open spec fn projection_map_ok(ps: Seq<ActiveSearchProjection>) -> bool {
    forall|i: int, j: int|
        0 <= i < j < ps.len() ==> {
            &&& ps[i].document_id@ != ps[j].document_id@
            &&& ps[i].resume_version_id@ != ps[j].resume_version_id@
        }
}

/// Checks that a projection list maps each document to one version and each
/// version to one document.
pub fn projection_map_is_exact(ps: &[ActiveSearchProjection]) -> (r: bool)
    ensures
        r == projection_map_ok(ps@),
{
    let mut i: usize = 0;
    while i < ps.len()
        invariant
            i <= ps.len(),
            forall|a: int, b: int|
                0 <= a < b < i ==> {
                    &&& ps@[a].document_id@ != ps@[b].document_id@
                    &&& ps@[a].resume_version_id@ != ps@[b].resume_version_id@
                },
        decreases ps.len() - i,
    {
        let mut j: usize = 0;
        while j < i
            invariant
                j <= i < ps.len(),
                forall|a: int, b: int|
                    0 <= a < b < i ==> {
                        &&& ps@[a].document_id@ != ps@[b].document_id@
                        &&& ps@[a].resume_version_id@ != ps@[b].resume_version_id@
                    },
                forall|a: int|
                    0 <= a < j ==> {
                        &&& ps@[a].document_id@ != ps@[i as int].document_id@
                        &&& ps@[a].resume_version_id@ != ps@[i as int].resume_version_id@
                    },
            decreases i - j,
        {
            if ps[j].document_id.same_as(&ps[i].document_id) || ps[j].resume_version_id.same_as(
                &ps[i].resume_version_id,
            ) {
                return false;
            }
            j += 1;
        }
        i += 1;
    }
    true
}

/// Whether a projection list names a document.
pub open spec fn projects_document(ps: Seq<ActiveSearchProjection>, document: Seq<char>) -> bool {
    exists|i: int| 0 <= i < ps.len() && ps[i].document_id@ == document
}

/// Checks whether a projection list names a document.
pub fn projects_document_exec(ps: &[ActiveSearchProjection], document: &DocumentId) -> (r: bool)
    ensures
        r == projects_document(ps@, document@),
{
    let mut i: usize = 0;
    while i < ps.len()
        invariant
            i <= ps.len(),
            forall|a: int| 0 <= a < i ==> ps@[a].document_id@ != document@,
        decreases ps.len() - i,
    {
        if ps[i].document_id.same_as(document) {
            return true;
        }
        i += 1;
    }
    false
}

/// The terminal shape a document update must have: a searchable document is
/// projected and not deleted, a deleted one is neither projected nor
/// undeleted, an excluded or permanently failed one is not projected and not
/// deleted; no other terminal status is allowed.
pub open spec fn terminal_shape_ok(t: TerminalDocumentUpdate, projected: bool) -> bool {
    match t.terminal_status {
        DocumentStatus::Searchable => projected && !t.terminal_is_deleted,
        DocumentStatus::Deleted => !projected && t.terminal_is_deleted,
        DocumentStatus::Excluded | DocumentStatus::FailedPermanent => !projected
            && !t.terminal_is_deleted,
        _ => false,
    }
}

/// Every terminal update names a distinct document and has a valid shape.
pub open spec fn terminals_ok(
    ts: Seq<TerminalDocumentUpdate>,
    projections: Seq<ActiveSearchProjection>,
) -> bool {
    &&& forall|i: int, j: int| 0 <= i < j < ts.len() ==> ts[i].document_id@ != ts[j].document_id@
    &&& forall|i: int|
        0 <= i < ts.len() ==> terminal_shape_ok(
            #[trigger] ts[i],
            projects_document(projections, ts[i].document_id@),
        )
}

/// Failure of the shape of a commit, if any.
pub open spec fn commit_shape_failure(
    generation: Seq<char>,
    terminals: Seq<TerminalDocumentUpdate>,
    projections: Seq<ActiveSearchProjection>,
    coverage: Seq<ActiveSearchProjection>,
) -> Option<SearchPublicationFailure> {
    if !valid_generation(generation) {
        Some(SearchPublicationFailure::InvalidGeneration)
    } else if !projection_map_ok(projections) || !projection_map_ok(coverage) {
        Some(SearchPublicationFailure::ProjectionMismatch)
    } else if !terminals_ok(terminals, projections) {
        Some(SearchPublicationFailure::InvalidDocumentState)
    } else {
        None
    }
}

/// An accepted commit settles documents consistently with its projection:
/// a document settled as deleted, excluded or permanently failed is not
/// projected, a searchable one is, and exactly the deleted ones are marked
/// deleted.
pub proof fn accepted_commit_keeps_settled_documents_out(
    generation: Seq<char>,
    terminals: Seq<TerminalDocumentUpdate>,
    projections: Seq<ActiveSearchProjection>,
    coverage: Seq<ActiveSearchProjection>,
)
    requires
        commit_shape_failure(generation, terminals, projections, coverage) is None,
    ensures
        forall|i: int, j: int|
            0 <= i < terminals.len() && 0 <= j < projections.len() && terminals[i].terminal_status
                != DocumentStatus::Searchable ==> #[trigger] projections[j].document_id@
                != #[trigger] terminals[i].document_id@,
        forall|i: int|
            0 <= i < terminals.len() && terminals[i].terminal_status == DocumentStatus::Searchable
                ==> exists|j: int|
                0 <= j < projections.len() && #[trigger] projections[j].document_id@
                    == #[trigger] terminals[i].document_id@,
        forall|i: int|
            0 <= i < terminals.len() ==> (#[trigger] terminals[i].terminal_is_deleted
                <==> terminals[i].terminal_status == DocumentStatus::Deleted),
{
    assert forall|i: int, j: int|
        0 <= i < terminals.len() && 0 <= j < projections.len() && terminals[i].terminal_status
            != DocumentStatus::Searchable implies #[trigger] projections[j].document_id@
            != #[trigger] terminals[i].document_id@ by {
        assert(terminal_shape_ok(terminals[i], projects_document(projections, terminals[i].document_id@)));
    }
    assert forall|i: int|
        0 <= i < terminals.len() && terminals[i].terminal_status == DocumentStatus::Searchable
            implies exists|j: int|
            0 <= j < projections.len() && #[trigger] projections[j].document_id@
                == #[trigger] terminals[i].document_id@ by {
        assert(terminal_shape_ok(terminals[i], projects_document(projections, terminals[i].document_id@)));
    }
    assert forall|i: int| 0 <= i < terminals.len() implies (#[trigger] terminals[i].terminal_is_deleted
        <==> terminals[i].terminal_status == DocumentStatus::Deleted) by {
        assert(terminal_shape_ok(terminals[i], projects_document(projections, terminals[i].document_id@)));
    }
}

fn terminal_shape_exec(t: &TerminalDocumentUpdate, projected: bool) -> (r: bool)
    ensures
        r == terminal_shape_ok(*t, projected),
{
    match t.terminal_status {
        DocumentStatus::Searchable => projected && !t.terminal_is_deleted,
        DocumentStatus::Deleted => !projected && t.terminal_is_deleted,
        DocumentStatus::Excluded | DocumentStatus::FailedPermanent => !projected
            && !t.terminal_is_deleted,
        _ => false,
    }
}

/// Checks the shape of a commit before any stored state is read.
#[verifier::loop_isolation(false)]
pub fn validate_commit_shape(commit: &SearchPublicationCommit) -> (r: Result<(), MetaStoreError>)
    ensures
        r == failure_result(
            commit_shape_failure(
                commit.generation@,
                commit.terminal_documents@,
                commit.projections@,
                commit.vector_coverage@,
            ),
        ),
        r is Ok ==> forall|i: int, j: int|
            0 <= i < commit.terminal_documents@.len() && 0 <= j < commit.projections@.len()
                && commit.terminal_documents@[i].terminal_status != DocumentStatus::Searchable
                ==> #[trigger] commit.projections@[j].document_id@
                != #[trigger] commit.terminal_documents@[i].document_id@,
        r is Ok ==> forall|i: int|
            0 <= i < commit.terminal_documents@.len() ==> (
            #[trigger] commit.terminal_documents@[i].terminal_is_deleted
                <==> commit.terminal_documents@[i].terminal_status == DocumentStatus::Deleted),
{
    proof {
        if commit_shape_failure(
            commit.generation@,
            commit.terminal_documents@,
            commit.projections@,
            commit.vector_coverage@,
        ) is None {
            accepted_commit_keeps_settled_documents_out(
                commit.generation@,
                commit.terminal_documents@,
                commit.projections@,
                commit.vector_coverage@,
            );
        }
    }
    if !is_valid_generation(commit.generation) {
        return Err(publication_error(SearchPublicationFailure::InvalidGeneration));
    }
    if !projection_map_is_exact(commit.projections) || !projection_map_is_exact(
        commit.vector_coverage,
    ) {
        return Err(publication_error(SearchPublicationFailure::ProjectionMismatch));
    }
    let ts = commit.terminal_documents;
    let mut i: usize = 0;
    while i < ts.len()
        invariant
            i <= ts.len(),
            ts@ == commit.terminal_documents@,
            forall|a: int, b: int| 0 <= a < b < i ==> ts@[a].document_id@ != ts@[b].document_id@,
            forall|a: int|
                0 <= a < i ==> terminal_shape_ok(
                    #[trigger] ts@[a],
                    projects_document(commit.projections@, ts@[a].document_id@),
                ),
        decreases ts.len() - i,
    {
        let projected = projects_document_exec(commit.projections, &ts[i].document_id);
        if !terminal_shape_exec(&ts[i], projected) {
            proof {
                assert(!terminal_shape_ok(
                    ts@[i as int],
                    projects_document(commit.projections@, ts@[i as int].document_id@),
                ));
            }
            return Err(publication_error(SearchPublicationFailure::InvalidDocumentState));
        }
        let mut j: usize = 0;
        while j < i
            invariant
                j <= i < ts.len(),
                forall|a: int| 0 <= a < j ==> ts@[a].document_id@ != ts@[i as int].document_id@,
            decreases i - j,
        {
            if ts[j].document_id.same_as(&ts[i].document_id) {
                proof {
                    assert(ts@[j as int].document_id@ == ts@[i as int].document_id@);
                }
                return Err(publication_error(SearchPublicationFailure::InvalidDocumentState));
            }
            j += 1;
        }
        i += 1;
    }
    Ok(())
}

/// Projections of `ps` whose document the coverage names, in `ps` order.
pub open spec fn covered_in_order(
    ps: Seq<ActiveSearchProjection>,
    coverage: Seq<ActiveSearchProjection>,
) -> Seq<ActiveSearchProjection>
    decreases ps.len(),
{
    if ps.len() == 0 {
        Seq::empty()
    } else if projects_document(coverage, ps.last().document_id@) {
        covered_in_order(ps.drop_last(), coverage).push(ps.last())
    } else {
        covered_in_order(ps.drop_last(), coverage)
    }
}

/// Two projections pair the same document with the same version.
pub open spec fn same_projection(a: ActiveSearchProjection, b: ActiveSearchProjection) -> bool {
    a.document_id@ == b.document_id@ && a.resume_version_id@ == b.resume_version_id@
}

/// Whether a projection list holds a projection equal to `c`.
pub open spec fn holds_projection(ps: Seq<ActiveSearchProjection>, c: ActiveSearchProjection) -> bool {
    exists|j: int| 0 <= j < ps.len() && same_projection(#[trigger] ps[j], c)
}

/// Every covered document is projected with the same version.
pub open spec fn coverage_within(
    covered: Seq<ActiveSearchProjection>,
    ps: Seq<ActiveSearchProjection>,
) -> bool {
    forall|i: int| 0 <= i < covered.len() ==> holds_projection(ps, #[trigger] covered[i])
}

/// Failure of a commit against its validated publication's descriptors, if
/// any. The projection digest must match the journal and both descriptors,
/// both snapshots must count every projection, and the vector coverage must
/// be a sub-mapping of the projection whose size and digest the vector
/// descriptor records.
pub open spec fn commit_projection_failure(
    projections: Seq<ActiveSearchProjection>,
    coverage: Seq<ActiveSearchProjection>,
    publication: SearchPublicationRecord,
) -> Option<SearchPublicationFailure> {
    if publication.fulltext is None || publication.vector is None {
        Some(SearchPublicationFailure::InvalidPersistedState)
    } else {
        let ft = publication.fulltext.unwrap()@;
        let v = publication.vector.unwrap()@;
        let digest = projection_digest_text(projections);
        if !documents_ascending(projections) || encode_utf8(publication.projection_digest@)
            != digest || encode_utf8(ft.projection_digest) != digest || encode_utf8(
            v.projection_digest,
        ) != digest || ft.document_count != projections.len() || v.projection_count
            != projections.len() {
            Some(SearchPublicationFailure::ProjectionMismatch)
        } else if !projection_map_ok(projections) || !projection_map_ok(coverage) {
            Some(SearchPublicationFailure::ProjectionMismatch)
        } else if !coverage_within(coverage, projections) || coverage.len() != v.document_count
            || !documents_ascending(covered_in_order(projections, coverage)) || encode_utf8(
            v.coverage_digest,
        ) != projection_digest_text(covered_in_order(projections, coverage)) {
            Some(SearchPublicationFailure::VectorCoverageMismatch)
        } else {
            None
        }
    }
}

fn same_text_as_digest_bytes(a: &SearchProjectionDigest, b: &SearchProjectionDigest) -> (r: bool)
    ensures
        r == (encode_utf8(a@) == encode_utf8(b@)),
{
    let r = a.same_as(b);
    proof {
        encode_utf8_decode_utf8(a@);
        encode_utf8_decode_utf8(b@);
    }
    r
}

fn covered_projection_exists(ps: &[ActiveSearchProjection], c: &ActiveSearchProjection) -> (r: bool)
    ensures
        r == holds_projection(ps@, *c),
{
    let mut j: usize = 0;
    while j < ps.len()
        invariant
            j <= ps.len(),
            forall|k: int| 0 <= k < j ==> !same_projection(#[trigger] ps@[k], *c),
        decreases ps.len() - j,
    {
        if ps[j].document_id.same_as(&c.document_id) && ps[j].resume_version_id.same_as(
            &c.resume_version_id,
        ) {
            return true;
        }
        j += 1;
    }
    false
}

/// Checks that every covered projection pairs a projected document with its
/// projected version.
pub fn coverage_is_within(
    covered: &[ActiveSearchProjection],
    ps: &[ActiveSearchProjection],
) -> (r: bool)
    ensures
        r == coverage_within(covered@, ps@),
{
    let mut i: usize = 0;
    while i < covered.len()
        invariant
            i <= covered.len(),
            forall|a: int| 0 <= a < i ==> holds_projection(ps@, #[trigger] covered@[a]),
        decreases covered.len() - i,
    {
        if !covered_projection_exists(ps, &covered[i]) {
            return false;
        }
        i += 1;
    }
    true
}

/// The projections of `ps` whose document the coverage names, in `ps` order.
pub fn covered_projections(
    ps: &[ActiveSearchProjection],
    coverage: &[ActiveSearchProjection],
) -> (ordered: Vec<ActiveSearchProjection>)
    ensures
        ordered@ == covered_in_order(ps@, coverage@),
{
    let mut ordered: Vec<ActiveSearchProjection> = Vec::new();
    let mut k: usize = 0;
    while k < ps.len()
        invariant
            k <= ps.len(),
            ordered@ == covered_in_order(ps@.take(k as int), coverage@),
        decreases ps.len() - k,
    {
        proof {
            let next = ps@.take(k + 1);
            assert(next.drop_last() =~= ps@.take(k as int));
            assert(next.last() == ps@[k as int]);
        }
        if projects_document_exec(coverage, &ps[k].document_id) {
            ordered.push(ps[k].duplicate());
        }
        k += 1;
    }
    assert(ps@.take(ps.len() as int) =~= ps@);
    ordered
}

/// Checks a commit's projection mapping and vector coverage against the
/// descriptors of its validated publication.
pub fn validate_commit_projection(
    commit: &SearchPublicationCommit,
    publication: &SearchPublicationRecord,
) -> (r: Result<(), MetaStoreError>)
    ensures
        r == failure_result(
            commit_projection_failure(commit.projections@, commit.vector_coverage@, *publication),
        ),
{
    let fulltext = match &publication.fulltext {
        Some(f) => f,
        None => return Err(publication_error(SearchPublicationFailure::InvalidPersistedState)),
    };
    let vector = match &publication.vector {
        Some(v) => v,
        None => return Err(publication_error(SearchPublicationFailure::InvalidPersistedState)),
    };
    let ps = commit.projections;
    let coverage = commit.vector_coverage;
    let digest = match SearchProjectionDigest::from_pairs(ps) {
        Some(d) => d,
        None => return Err(publication_error(SearchPublicationFailure::ProjectionMismatch)),
    };
    if !same_text_as_digest_bytes(&digest, &publication.projection_digest)
        || !same_text_as_digest_bytes(&digest, fulltext.projection_digest())
        || !same_text_as_digest_bytes(&digest, vector.projection_digest())
        || fulltext.document_count() != ps.len() as u64 || vector.projection_count() != ps.len() as u64 {
        return Err(publication_error(SearchPublicationFailure::ProjectionMismatch));
    }
    if !projection_map_is_exact(ps) || !projection_map_is_exact(coverage) {
        return Err(publication_error(SearchPublicationFailure::ProjectionMismatch));
    }
    if !coverage_is_within(coverage, ps) || coverage.len() as u64 != vector.document_count() {
        return Err(publication_error(SearchPublicationFailure::VectorCoverageMismatch));
    }
    let ordered = covered_projections(ps, coverage);
    let coverage_digest = match SearchProjectionDigest::from_pairs(ordered.as_slice()) {
        Some(d) => d,
        None => return Err(publication_error(SearchPublicationFailure::VectorCoverageMismatch)),
    };
    if !same_text_as_digest_bytes(&coverage_digest, vector.coverage_digest()) {
        return Err(publication_error(SearchPublicationFailure::VectorCoverageMismatch));
    }
    Ok(())
}

} // verus!
