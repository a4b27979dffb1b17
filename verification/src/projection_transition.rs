use vstd::prelude::*;
use crate::digest::ContentDigest;
use crate::error::{publication_error, MetaStoreError, SearchPublicationFailure};
use crate::ids::{ActiveSearchProjection, ResumeVersionId};
use crate::publication_model::{DocumentStatus, TerminalDocumentUpdate};
use crate::publication_validation::{
    failure_result, is_stable_nonsearch_terminal, stable_nonsearch_terminal,
};
use crate::text::text_equal;

verus! {

/// One row of the active search projection as stored.
#[derive(Clone, Debug, PartialEq, Eq)]
pub struct CurrentProjectionRow {
    pub document_id: String,
    pub resume_version_id: String,
    pub generation: String,
}

/// The view of an optional text.
pub open spec fn option_str_view(value: Option<&str>) -> Option<Seq<char>> {
    match value {
        Some(s) => Some(s@),
        None => None,
    }
}

/// The version that a projection list gives a document; where the document
/// occurs more than once, the last occurrence counts.
pub open spec fn version_of(ps: Seq<ActiveSearchProjection>, document: Seq<char>) -> Option<
    Seq<char>,
>
    decreases ps.len(),
{
    if ps.len() == 0 {
        None
    } else if ps.last().document_id@ == document {
        Some(ps.last().resume_version_id@)
    } else {
        version_of(ps.drop_last(), document)
    }
}

/// The terminal status that a list of terminal updates gives a document;
/// where the document occurs more than once, the last occurrence counts.
pub open spec fn terminal_status_of(ts: Seq<TerminalDocumentUpdate>, document: Seq<char>) -> Option<
    DocumentStatus,
>
    decreases ts.len(),
{
    if ts.len() == 0 {
        None
    } else if ts.last().document_id@ == document {
        Some(ts.last().terminal_status)
    } else {
        terminal_status_of(ts.drop_last(), document)
    }
}

/// A later row stores the same document, so this row is overridden.
pub open spec fn superseded_row(rows: Seq<CurrentProjectionRow>, i: int) -> bool {
    exists|j: int| i < j < rows.len() && #[trigger] rows[j].document_id@ == rows[i].document_id@
}

/// Some row stores the document.
pub open spec fn holds_row(rows: Seq<CurrentProjectionRow>, document: Seq<char>) -> bool {
    exists|i: int| 0 <= i < rows.len() && #[trigger] rows[i].document_id@ == document
}

/// Whether a currently projected document may move to its target: an
/// unchanged version takes no terminal update, a changed version must become
/// searchable, and a dropped document must settle as excluded, permanently
/// failed or deleted.
pub open spec fn transition_ok(
    target: Option<Seq<char>>,
    current: Seq<char>,
    terminal: Option<DocumentStatus>,
) -> bool {
    match target {
        Some(t) => if t == current {
            terminal is None
        } else {
            terminal == Some(DocumentStatus::Searchable)
        },
        None => match terminal {
            Some(s) => stable_nonsearch_terminal(s),
            None => false,
        },
    }
}

/// A row whose transition is refused.
pub open spec fn refused_row(
    rows: Seq<CurrentProjectionRow>,
    target: Seq<ActiveSearchProjection>,
    ts: Seq<TerminalDocumentUpdate>,
    i: int,
) -> bool {
    &&& !superseded_row(rows, i)
    &&& !transition_ok(
        version_of(target, rows[i].document_id@),
        rows[i].resume_version_id@,
        terminal_status_of(ts, rows[i].document_id@),
    )
}

/// A newly projected document that does not become searchable.
pub open spec fn refused_addition(
    rows: Seq<CurrentProjectionRow>,
    target: Seq<ActiveSearchProjection>,
    ts: Seq<TerminalDocumentUpdate>,
    k: int,
) -> bool {
    &&& !holds_row(rows, target[k].document_id@)
    &&& terminal_status_of(ts, target[k].document_id@) != Some(DocumentStatus::Searchable)
}

/// Failure of moving the stored projection to the target one, if any. Every
/// stored row must belong to the base generation; every stored document must
/// make an allowed transition and every added one must become searchable.
pub open spec fn projection_transition_failure(
    rows: Seq<CurrentProjectionRow>,
    target: Seq<ActiveSearchProjection>,
    ts: Seq<TerminalDocumentUpdate>,
    base: Option<Seq<char>>,
) -> Option<SearchPublicationFailure> {
    if exists|i: int| 0 <= i < rows.len() && Some(#[trigger] rows[i].generation@) != base {
        Some(SearchPublicationFailure::InvalidPersistedState)
    } else if exists|i: int| 0 <= i < rows.len() && #[trigger] refused_row(rows, target, ts, i) {
        Some(SearchPublicationFailure::InvalidProjectionTransition)
    } else if exists|k: int|
        0 <= k < target.len() && #[trigger] refused_addition(rows, target, ts, k) {
        Some(SearchPublicationFailure::InvalidProjectionTransition)
    } else {
        None
    }
}

/// A projection transition that passes keeps the stored projection to the
/// base generation and settles every change: a document whose version stays
/// takes no terminal update, one that moves to another version becomes
/// searchable, one that leaves the projection settles as excluded,
/// permanently failed or deleted, and a newly projected document becomes
/// searchable.
pub proof fn accepted_transitions_settle_every_change(
    rows: Seq<CurrentProjectionRow>,
    target: Seq<ActiveSearchProjection>,
    ts: Seq<TerminalDocumentUpdate>,
    base: Option<Seq<char>>,
)
    requires
        projection_transition_failure(rows, target, ts, base) is None,
    ensures
        forall|i: int| 0 <= i < rows.len() ==> Some(#[trigger] rows[i].generation@) == base,
        forall|i: int|
            0 <= i < rows.len() && !superseded_row(rows, i) ==> {
                let doc = #[trigger] rows[i].document_id@;
                let terminal = terminal_status_of(ts, doc);
                match version_of(target, doc) {
                    Some(v) => if v == rows[i].resume_version_id@ {
                        terminal is None
                    } else {
                        terminal == Some(DocumentStatus::Searchable)
                    },
                    None => terminal == Some(DocumentStatus::Excluded) || terminal == Some(
                        DocumentStatus::FailedPermanent,
                    ) || terminal == Some(DocumentStatus::Deleted),
                }
            },
        forall|k: int|
            0 <= k < target.len() && !holds_row(rows, #[trigger] target[k].document_id@)
                ==> terminal_status_of(ts, target[k].document_id@) == Some(
                DocumentStatus::Searchable,
            ),
{
    assert forall|i: int|
        0 <= i < rows.len() && !superseded_row(rows, i) implies {
            let doc = #[trigger] rows[i].document_id@;
            let terminal = terminal_status_of(ts, doc);
            match version_of(target, doc) {
                Some(v) => if v == rows[i].resume_version_id@ {
                    terminal is None
                } else {
                    terminal == Some(DocumentStatus::Searchable)
                },
                None => terminal == Some(DocumentStatus::Excluded) || terminal == Some(
                    DocumentStatus::FailedPermanent,
                ) || terminal == Some(DocumentStatus::Deleted),
            }
        } by {
        assert(!refused_row(rows, target, ts, i));
    }
    assert forall|k: int|
        0 <= k < target.len() && !holds_row(rows, #[trigger] target[k].document_id@)
            implies terminal_status_of(ts, target[k].document_id@) == Some(
            DocumentStatus::Searchable,
        ) by {
        assert(!refused_addition(rows, target, ts, k));
    }
}

/// The version a projection list gives a document.
pub fn version_for_document<'a>(ps: &'a [ActiveSearchProjection], document: &str) -> (r: Option<
    &'a ResumeVersionId,
>)
    ensures
        match r {
            Some(v) => version_of(ps@, document@) == Some(v@),
            None => version_of(ps@, document@) is None,
        },
{
    let mut i: usize = ps.len();
    assert(ps@.take(ps.len() as int) =~= ps@);
    while i > 0
        invariant
            i <= ps.len(),
            version_of(ps@, document@) == version_of(ps@.take(i as int), document@),
        decreases i,
    {
        proof {
            assert(ps@.take(i as int).drop_last() =~= ps@.take(i - 1));
            assert(ps@.take(i as int).last() == ps@[i - 1]);
        }
        if text_equal(ps[i - 1].document_id.as_str(), document) {
            return Some(&ps[i - 1].resume_version_id);
        }
        i -= 1;
    }
    None
}

/// The terminal status a list of terminal updates gives a document.
pub fn terminal_status_for_document(ts: &[TerminalDocumentUpdate], document: &str) -> (r: Option<
    DocumentStatus,
>)
    ensures
        r == terminal_status_of(ts@, document@),
{
    let mut i: usize = ts.len();
    assert(ts@.take(ts.len() as int) =~= ts@);
    while i > 0
        invariant
            i <= ts.len(),
            terminal_status_of(ts@, document@) == terminal_status_of(ts@.take(i as int), document@),
        decreases i,
    {
        proof {
            assert(ts@.take(i as int).drop_last() =~= ts@.take(i - 1));
            assert(ts@.take(i as int).last() == ts@[i - 1]);
        }
        if text_equal(ts[i - 1].document_id.as_str(), document) {
            return Some(ts[i - 1].terminal_status);
        }
        i -= 1;
    }
    None
}

fn row_is_superseded(rows: &[CurrentProjectionRow], i: usize) -> (r: bool)
    requires
        i < rows.len(),
    ensures
        r == superseded_row(rows@, i as int),
{
    let mut j: usize = i + 1;
    while j < rows.len()
        invariant
            i < j <= rows.len(),
            forall|k: int| i < k < j ==> #[trigger] rows@[k].document_id@ != rows@[i as int].document_id@,
        decreases rows.len() - j,
    {
        if text_equal(rows[j].document_id.as_str(), rows[i].document_id.as_str()) {
            return true;
        }
        j += 1;
    }
    false
}

fn rows_hold_document(rows: &[CurrentProjectionRow], document: &str) -> (r: bool)
    ensures
        r == holds_row(rows@, document@),
{
    let mut i: usize = 0;
    while i < rows.len()
        invariant
            i <= rows.len(),
            forall|k: int| 0 <= k < i ==> #[trigger] rows@[k].document_id@ != document@,
        decreases rows.len() - i,
    {
        if text_equal(rows[i].document_id.as_str(), document) {
            return true;
        }
        i += 1;
    }
    false
}

fn transition_allowed(
    target: Option<&ResumeVersionId>,
    current: &str,
    terminal: Option<DocumentStatus>,
) -> (r: bool)
    ensures
        r == transition_ok(
            match target {
                Some(v) => Some(v@),
                None => None,
            },
            current@,
            terminal,
        ),
{
    match target {
        Some(t) => if text_equal(t.as_str(), current) {
            terminal.is_none()
        } else {
            match terminal {
                Some(DocumentStatus::Searchable) => true,
                _ => false,
            }
        },
        None => match terminal {
            Some(s) => is_stable_nonsearch_terminal(s),
            None => false,
        },
    }
}

fn generation_matches(generation: &str, base: Option<&str>) -> (r: bool)
    ensures
        r == (Some(generation@) == option_str_view(base)),
{
    match base {
        Some(b) => text_equal(generation, b),
        None => false,
    }
}

/// Checks that the stored projection may move to the target projection under
/// the commit's terminal updates.
pub fn validate_projection_transitions(
    rows: &[CurrentProjectionRow],
    target: &[ActiveSearchProjection],
    terminal_documents: &[TerminalDocumentUpdate],
    base_generation: Option<&str>,
) -> (r: Result<(), MetaStoreError>)
    ensures
        r == failure_result(
            projection_transition_failure(
                rows@,
                target@,
                terminal_documents@,
                option_str_view(base_generation),
            ),
        ),
{
    let ghost base = option_str_view(base_generation);
    let mut i: usize = 0;
    while i < rows.len()
        invariant
            i <= rows.len(),
            base == option_str_view(base_generation),
            forall|k: int| 0 <= k < i ==> Some(#[trigger] rows@[k].generation@) == base,
        decreases rows.len() - i,
    {
        if !generation_matches(rows[i].generation.as_str(), base_generation) {
            proof {
                assert(Some(rows@[i as int].generation@) != base);
            }
            return Err(publication_error(SearchPublicationFailure::InvalidPersistedState));
        }
        i += 1;
    }
    let mut i: usize = 0;
    while i < rows.len()
        invariant
            i <= rows.len(),
            base == option_str_view(base_generation),
            forall|k: int| 0 <= k < rows.len() ==> Some(#[trigger] rows@[k].generation@) == base,
            forall|k: int|
                0 <= k < i ==> !#[trigger] refused_row(rows@, target@, terminal_documents@, k),
        decreases rows.len() - i,
    {
        if !row_is_superseded(rows, i) {
            let document = rows[i].document_id.as_str();
            let version = version_for_document(target, document);
            let terminal = terminal_status_for_document(terminal_documents, document);
            if !transition_allowed(version, rows[i].resume_version_id.as_str(), terminal) {
                proof {
                    assert(refused_row(rows@, target@, terminal_documents@, i as int));
                }
                return Err(publication_error(SearchPublicationFailure::InvalidProjectionTransition));
            }
        }
        i += 1;
    }
    let mut k: usize = 0;
    while k < target.len()
        invariant
            k <= target.len(),
            base == option_str_view(base_generation),
            forall|a: int| 0 <= a < rows.len() ==> Some(#[trigger] rows@[a].generation@) == base,
            forall|a: int|
                0 <= a < rows.len() ==> !#[trigger] refused_row(rows@, target@, terminal_documents@, a),
            forall|a: int|
                0 <= a < k ==> !#[trigger] refused_addition(rows@, target@, terminal_documents@, a),
        decreases target.len() - k,
    {
        let document = target[k].document_id.as_str();
        if !rows_hold_document(rows, document) {
            match terminal_status_for_document(terminal_documents, document) {
                Some(DocumentStatus::Searchable) => {},
                _ => {
                    proof {
                        assert(refused_addition(rows@, target@, terminal_documents@, k as int));
                    }
                    return Err(
                        publication_error(SearchPublicationFailure::InvalidProjectionTransition),
                    );
                },
            }
        }
        k += 1;
    }
    Ok(())
}

/// The version that the target projection gives a terminal update that
/// becomes searchable; a searchable document must be projected.
pub fn searchable_terminal_version<'a>(
    target: &'a [ActiveSearchProjection],
    terminal: &TerminalDocumentUpdate,
) -> (r: Result<&'a ResumeVersionId, MetaStoreError>)
    ensures
        match r {
            Ok(v) => version_of(target@, terminal.document_id@) == Some(v@),
            Err(e) => version_of(target@, terminal.document_id@) is None && e
                == MetaStoreError::SearchPublication(SearchPublicationFailure::InvalidDocumentState),
        },
{
    match version_for_document(target, terminal.document_id.as_str()) {
        Some(v) => Ok(v),
        None => Err(publication_error(SearchPublicationFailure::InvalidDocumentState)),
    }
}

/// Checks the content hash stored for a projected version against the hash
/// that a searchable terminal update expects.
pub fn check_projected_content(projected_content_hash: Option<&str>, expected: &ContentDigest) -> (r:
    Result<(), MetaStoreError>)
    ensures
        r is Ok <==> option_str_view(projected_content_hash) == Some(expected@),
        r is Err ==> r == Err::<(), MetaStoreError>(
            MetaStoreError::SearchPublication(SearchPublicationFailure::InvalidDocumentState),
        ),
{
    match projected_content_hash {
        Some(h) => if text_equal(h, expected.as_str()) {
            Ok(())
        } else {
            Err(publication_error(SearchPublicationFailure::InvalidDocumentState))
        },
        None => Err(publication_error(SearchPublicationFailure::InvalidDocumentState)),
    }
}

/// What is stored of a projected document and its version.
#[derive(Clone, Debug, PartialEq, Eq)]
pub struct ProjectedDocumentState {
    pub is_deleted: i64,
    pub status: String,
    pub document_hash: Option<String>,
    pub revision_hash: String,
    pub retained: i64,
}

/// Whether a projected document may stay or become projected: it exists, is
/// not deleted, and, unless it is already projected with this version, it is
/// searchable and holds the content of the projected revision.
pub open spec fn projected_state_ok(state: Option<ProjectedDocumentState>) -> bool {
    match state {
        None => false,
        Some(s) => {
            &&& s.is_deleted == 0
            &&& s.status@ != "deleted"@
            &&& (s.retained == 0 ==> s.status@ == "searchable"@ && match s.document_hash {
                Some(h) => h@ == s.revision_hash@,
                None => false,
            })
        },
    }
}

/// Checks what is stored of one projected document.
pub fn validate_projected_document_state(state: &Option<ProjectedDocumentState>) -> (r: Result<
    (),
    MetaStoreError,
>)
    ensures
        r is Ok <==> projected_state_ok(*state),
        r is Err ==> r == Err::<(), MetaStoreError>(
            MetaStoreError::SearchPublication(SearchPublicationFailure::InvalidDocumentState),
        ),
{
    let ok = match state {
        None => false,
        Some(s) => {
            let hash_matches = match &s.document_hash {
                Some(h) => text_equal(h.as_str(), s.revision_hash.as_str()),
                None => false,
            };
            s.is_deleted == 0 && !text_equal(s.status.as_str(), DocumentStatus::Deleted.as_str())
                && (s.retained != 0 || (text_equal(
                s.status.as_str(),
                DocumentStatus::Searchable.as_str(),
            ) && hash_matches))
        },
    };
    if ok {
        Ok(())
    } else {
        Err(publication_error(SearchPublicationFailure::InvalidDocumentState))
    }
}

} // verus!
