use vstd::prelude::*;
use crate::error::{publication_error, MetaStoreError, SearchPublicationFailure};
use crate::publication_model::SearchPublicationState;
use crate::text::text_equal;

verus! {

/// Most pending retirements that one replay reads back.
pub const SEARCH_PUBLICATION_RETIREMENT_REPLAY_LIMIT: usize = 64;

/// What a retirement expects to find of one physical artifact.
#[derive(Clone, Copy, Debug, PartialEq, Eq, Structural)]
pub enum SearchArtifactExpectation {
    Absent,
    MayExist,
    Published,
}

/// Storage label of an artifact expectation.
pub open spec fn artifact_expectation_label(value: SearchArtifactExpectation) -> Seq<char> {
    match value {
        SearchArtifactExpectation::Absent => "none"@,
        SearchArtifactExpectation::MayExist => "may_exist"@,
        SearchArtifactExpectation::Published => "published"@,
    }
}

/// Artifact expectation named by a storage label, if any.
pub open spec fn artifact_expectation_from_label(label: Seq<char>) -> Option<SearchArtifactExpectation> {
    if label == "none"@ {
        Some(SearchArtifactExpectation::Absent)
    } else if label == "may_exist"@ {
        Some(SearchArtifactExpectation::MayExist)
    } else if label == "published"@ {
        Some(SearchArtifactExpectation::Published)
    } else {
        None
    }
}

/// Parsing the label of an artifact expectation gives it back.
pub proof fn artifact_expectation_label_round_trip(value: SearchArtifactExpectation)
    ensures
        artifact_expectation_from_label(artifact_expectation_label(value)) == Some(value),
{
    reveal_strlit("none");
    reveal_strlit("may_exist");
    reveal_strlit("published");
    assert("may_exist"@.len() != "none"@.len());
    assert("published"@.len() != "none"@.len());
    assert("published"@[0] != "may_exist"@[0]);
}

impl SearchArtifactExpectation {
    pub fn as_str(self) -> (r: &'static str)
        ensures
            r@ == artifact_expectation_label(self),
    {
        match self {
            SearchArtifactExpectation::Absent => "none",
            SearchArtifactExpectation::MayExist => "may_exist",
            SearchArtifactExpectation::Published => "published",
        }
    }

    /// Parses a stored expectation; an unknown label is invalid persisted state.
    pub fn parse(value: &str) -> (r: Result<Self, MetaStoreError>)
        ensures
            r matches Ok(v) ==> artifact_expectation_from_label(value@) == Some(v),
            r is Err <==> artifact_expectation_from_label(value@) is None,
            r matches Err(e) ==> e == MetaStoreError::SearchPublication(
                SearchPublicationFailure::InvalidPersistedState,
            ),
    {
        if text_equal(value, "none") {
            Ok(SearchArtifactExpectation::Absent)
        } else if text_equal(value, "may_exist") {
            Ok(SearchArtifactExpectation::MayExist)
        } else if text_equal(value, "published") {
            Ok(SearchArtifactExpectation::Published)
        } else {
            Err(publication_error(SearchPublicationFailure::InvalidPersistedState))
        }
    }
}

/// The artifacts a retirement expects to remove.
#[derive(Clone, Copy, Debug, PartialEq, Eq, Structural)]
pub struct SearchPublicationRetirementPlan {
    pub fulltext: SearchArtifactExpectation,
    pub vector: SearchArtifactExpectation,
}

impl SearchPublicationRetirementPlan {
    /// The plan of a publication that created no artifact.
    pub fn none() -> (r: Self)
        ensures
            r.fulltext == SearchArtifactExpectation::Absent,
            r.vector == SearchArtifactExpectation::Absent,
    {
        SearchPublicationRetirementPlan {
            fulltext: SearchArtifactExpectation::Absent,
            vector: SearchArtifactExpectation::Absent,
        }
    }
}

/// One of the two physical artifacts of a publication.
#[derive(Clone, Copy, Debug, PartialEq, Eq, Structural)]
pub enum SearchPublicationRetirementArtifact {
    FullText,
    Vector,
}

impl SearchPublicationRetirementArtifact {
    /// Storage label of the artifact.
    pub fn as_str(self) -> (r: &'static str)
        ensures
            r@ == (match self {
                SearchPublicationRetirementArtifact::FullText => "fulltext"@,
                SearchPublicationRetirementArtifact::Vector => "vector"@,
            }),
    {
        match self {
            SearchPublicationRetirementArtifact::FullText => "fulltext",
            SearchPublicationRetirementArtifact::Vector => "vector",
        }
    }
}

/// Whether a retirement still waits for an artifact.
#[derive(Clone, Copy, Debug, PartialEq, Eq, Structural)]
pub enum SearchPublicationRetirementPhase {
    Pending,
    Complete,
}

/// Storage label of a retirement phase.
pub open spec fn retirement_phase_label(value: SearchPublicationRetirementPhase) -> Seq<char> {
    match value {
        SearchPublicationRetirementPhase::Pending => "pending"@,
        SearchPublicationRetirementPhase::Complete => "complete"@,
    }
}

/// Retirement phase named by a storage label, if any.
pub open spec fn retirement_phase_from_label(label: Seq<char>) -> Option<SearchPublicationRetirementPhase> {
    if label == "pending"@ {
        Some(SearchPublicationRetirementPhase::Pending)
    } else if label == "complete"@ {
        Some(SearchPublicationRetirementPhase::Complete)
    } else {
        None
    }
}

/// Parsing the label of a retirement phase gives it back.
pub proof fn retirement_phase_label_round_trip(value: SearchPublicationRetirementPhase)
    ensures
        retirement_phase_from_label(retirement_phase_label(value)) == Some(value),
{
    reveal_strlit("pending");
    reveal_strlit("complete");
    assert("complete"@.len() != "pending"@.len());
}

impl SearchPublicationRetirementPhase {
    pub fn as_str(self) -> (r: &'static str)
        ensures
            r@ == retirement_phase_label(self),
    {
        match self {
            SearchPublicationRetirementPhase::Pending => "pending",
            SearchPublicationRetirementPhase::Complete => "complete",
        }
    }

    /// Parses a stored phase; an unknown label is invalid persisted state.
    pub fn parse(value: &str) -> (r: Result<Self, MetaStoreError>)
        ensures
            r matches Ok(v) ==> retirement_phase_from_label(value@) == Some(v),
            r is Err <==> retirement_phase_from_label(value@) is None,
            r matches Err(e) ==> e == MetaStoreError::SearchPublication(
                SearchPublicationFailure::InvalidPersistedState,
            ),
    {
        if text_equal(value, "pending") {
            Ok(SearchPublicationRetirementPhase::Pending)
        } else if text_equal(value, "complete") {
            Ok(SearchPublicationRetirementPhase::Complete)
        } else {
            Err(publication_error(SearchPublicationFailure::InvalidPersistedState))
        }
    }
}
/// The retirement record of one publication.
#[derive(Clone, Debug, PartialEq, Eq)]
pub struct SearchPublicationRetirement {
    pub generation: String,
    pub phase: SearchPublicationRetirementPhase,
    pub plan: SearchPublicationRetirementPlan,
    pub fulltext_complete: bool,
    pub vector_complete: bool,
}

/// Mathematical value of a retirement record.
pub struct RetirementView {
    pub generation: Seq<char>,
    pub phase: SearchPublicationRetirementPhase,
    pub plan: SearchPublicationRetirementPlan,
    pub fulltext_complete: bool,
    pub vector_complete: bool,
}

impl View for SearchPublicationRetirement {
    type V = RetirementView;

    open spec fn view(&self) -> RetirementView {
        RetirementView {
            generation: self.generation@,
            phase: self.phase,
            plan: self.plan,
            fulltext_complete: self.fulltext_complete,
            vector_complete: self.vector_complete,
        }
    }
}

/// The view of an optional retirement record.
pub open spec fn option_retirement_view(value: Option<&SearchPublicationRetirement>) -> Option<
    RetirementView,
> {
    match value {
        Some(r) => Some(r@),
        None => None,
    }
}

/// The record a retirement starts with: an artifact that is expected to be
/// absent counts as removed, and a retirement with nothing left to remove is
/// complete at once.
pub open spec fn begun_retirement(generation: Seq<char>, plan: SearchPublicationRetirementPlan) -> RetirementView {
    let fulltext = plan.fulltext == SearchArtifactExpectation::Absent;
    let vector = plan.vector == SearchArtifactExpectation::Absent;
    RetirementView {
        generation,
        phase: if fulltext && vector {
            SearchPublicationRetirementPhase::Complete
        } else {
            SearchPublicationRetirementPhase::Pending
        },
        plan,
        fulltext_complete: fulltext,
        vector_complete: vector,
    }
}

/// Whether a retirement has removed an artifact.
pub open spec fn artifact_removed(r: RetirementView, artifact: SearchPublicationRetirementArtifact) -> bool {
    match artifact {
        SearchPublicationRetirementArtifact::FullText => r.fulltext_complete,
        SearchPublicationRetirementArtifact::Vector => r.vector_complete,
    }
}

/// The record after an artifact is removed: its flag is set, and the
/// retirement is complete once the other artifact is removed too.
pub open spec fn with_artifact_removed(
    r: RetirementView,
    artifact: SearchPublicationRetirementArtifact,
) -> RetirementView {
    match artifact {
        SearchPublicationRetirementArtifact::FullText => RetirementView {
            fulltext_complete: true,
            phase: if r.vector_complete {
                SearchPublicationRetirementPhase::Complete
            } else {
                SearchPublicationRetirementPhase::Pending
            },
            ..r
        },
        SearchPublicationRetirementArtifact::Vector => RetirementView {
            vector_complete: true,
            phase: if r.fulltext_complete {
                SearchPublicationRetirementPhase::Complete
            } else {
                SearchPublicationRetirementPhase::Pending
            },
            ..r
        },
    }
}

/// What every retirement record written by this library satisfies: it is
/// complete exactly when both artifacts are removed, and an artifact that was
/// expected to be absent counts as removed.
pub open spec fn retirement_consistent(r: RetirementView) -> bool {
    &&& (r.phase == SearchPublicationRetirementPhase::Complete) == (r.fulltext_complete
        && r.vector_complete)
    &&& r.plan.fulltext == SearchArtifactExpectation::Absent ==> r.fulltext_complete
    &&& r.plan.vector == SearchArtifactExpectation::Absent ==> r.vector_complete
}

impl SearchPublicationRetirement {
    /// The record a retirement of `generation` under `plan` starts with.
    pub fn begun(generation: &str, plan: SearchPublicationRetirementPlan) -> (r: Self)
        ensures
            r@ == begun_retirement(generation@, plan),
            r.generation@ == generation@,
            r.plan == plan,
            r.fulltext_complete <==> plan.fulltext == SearchArtifactExpectation::Absent,
            r.vector_complete <==> plan.vector == SearchArtifactExpectation::Absent,
            r.phase == SearchPublicationRetirementPhase::Complete <==> (plan.fulltext
                == SearchArtifactExpectation::Absent && plan.vector
                == SearchArtifactExpectation::Absent),
    {
        proof {
            begun_retirement_removes_only_absent_artifacts(generation@, plan);
        }
        let fulltext = match plan.fulltext {
            SearchArtifactExpectation::Absent => true,
            _ => false,
        };
        let vector = match plan.vector {
            SearchArtifactExpectation::Absent => true,
            _ => false,
        };
        SearchPublicationRetirement {
            generation: generation.to_string(),
            phase: if fulltext && vector {
                SearchPublicationRetirementPhase::Complete
            } else {
                SearchPublicationRetirementPhase::Pending
            },
            plan,
            fulltext_complete: fulltext,
            vector_complete: vector,
        }
    }

    /// Whether this retirement has removed an artifact.
    pub fn has_removed(&self, artifact: SearchPublicationRetirementArtifact) -> (r: bool)
        ensures
            r == artifact_removed(self@, artifact),
    {
        match artifact {
            SearchPublicationRetirementArtifact::FullText => self.fulltext_complete,
            SearchPublicationRetirementArtifact::Vector => self.vector_complete,
        }
    }

    /// This record after an artifact is removed.
    pub fn with_removed(&self, artifact: SearchPublicationRetirementArtifact) -> (r: Self)
        ensures
            r@ == with_artifact_removed(self@, artifact),
    {
        let generation = self.generation.clone();
        match artifact {
            SearchPublicationRetirementArtifact::FullText => SearchPublicationRetirement {
                generation,
                phase: if self.vector_complete {
                    SearchPublicationRetirementPhase::Complete
                } else {
                    SearchPublicationRetirementPhase::Pending
                },
                plan: self.plan,
                fulltext_complete: true,
                vector_complete: self.vector_complete,
            },
            SearchPublicationRetirementArtifact::Vector => SearchPublicationRetirement {
                generation,
                phase: if self.fulltext_complete {
                    SearchPublicationRetirementPhase::Complete
                } else {
                    SearchPublicationRetirementPhase::Pending
                },
                plan: self.plan,
                fulltext_complete: self.fulltext_complete,
                vector_complete: true,
            },
        }
    }
}

/// What beginning a retirement writes.
#[derive(Clone, Debug, PartialEq, Eq)]
pub enum RetirementBegin {
    /// The same retirement was already recorded for the abandoned publication.
    AlreadyRecorded,
    /// Record `retirement`; where `abandon_from` is set, move the journal
    /// entry from that state to abandoned.
    Record { retirement: SearchPublicationRetirement, abandon_from: Option<SearchPublicationState> },
}

/// A retirement cannot begin: the publication is unknown or ready, or another
/// retirement is recorded, or the same one while the publication is not yet
/// abandoned.
pub open spec fn begin_refused(
    state: Option<SearchPublicationState>,
    existing: Option<RetirementView>,
    plan: SearchPublicationRetirementPlan,
) -> bool {
    ||| state is None
    ||| state == Some(SearchPublicationState::Ready)
    ||| existing matches Some(e) && !(e.plan == plan && state == Some(
        SearchPublicationState::Abandoned,
    ))
}

/// Decides what beginning the retirement of `generation` writes, given the
/// publication's journal state and any retirement already recorded for it.
pub fn plan_retirement_begin(
    publication_state: Option<SearchPublicationState>,
    existing: Option<&SearchPublicationRetirement>,
    generation: &str,
    plan: SearchPublicationRetirementPlan,
) -> (r: Result<RetirementBegin, MetaStoreError>)
    ensures
        match r {
            Err(e) => begin_refused(publication_state, option_retirement_view(existing), plan) && e
                == MetaStoreError::SearchPublication(SearchPublicationFailure::InvalidState),
            Ok(RetirementBegin::AlreadyRecorded) => !begin_refused(
                publication_state,
                option_retirement_view(existing),
                plan,
            ) && existing is Some,
            Ok(RetirementBegin::Record { retirement, abandon_from }) => {
                &&& !begin_refused(publication_state, option_retirement_view(existing), plan)
                &&& existing is None
                &&& retirement@ == begun_retirement(generation@, plan)
                &&& abandon_from == (if publication_state == Some(
                    SearchPublicationState::Abandoned,
                ) {
                    None
                } else {
                    publication_state
                })
            },
        },
{
    let state = match publication_state {
        None => return Err(publication_error(SearchPublicationFailure::InvalidState)),
        Some(s) => s,
    };
    let abandoned = match state {
        SearchPublicationState::Ready => {
            return Err(publication_error(SearchPublicationFailure::InvalidState));
        },
        SearchPublicationState::Abandoned => true,
        _ => false,
    };
    if let Some(e) = existing {
        if e.plan.fulltext == plan.fulltext && e.plan.vector == plan.vector && abandoned {
            return Ok(RetirementBegin::AlreadyRecorded);
        }
        return Err(publication_error(SearchPublicationFailure::InvalidState));
    }
    Ok(
        RetirementBegin::Record {
            retirement: SearchPublicationRetirement::begun(generation, plan),
            abandon_from: if abandoned {
                None
            } else {
                Some(state)
            },
        },
    )
}

/// What removing an artifact writes.
#[derive(Clone, Debug, PartialEq, Eq)]
pub enum ArtifactCompletion {
    /// The artifact was already removed; nothing changes.
    AlreadyComplete,
    /// Store this record.
    Complete(SearchPublicationRetirement),
}

/// Decides what recording the removal of an artifact writes, given the
/// retirement recorded for the publication.
pub fn plan_artifact_completion(
    existing: Option<&SearchPublicationRetirement>,
    artifact: SearchPublicationRetirementArtifact,
) -> (r: Result<ArtifactCompletion, MetaStoreError>)
    ensures
        match existing {
            None => r == Err::<ArtifactCompletion, MetaStoreError>(
                MetaStoreError::SearchPublication(SearchPublicationFailure::InvalidState),
            ),
            Some(e) => if artifact_removed(e@, artifact) {
                r == Ok::<ArtifactCompletion, MetaStoreError>(ArtifactCompletion::AlreadyComplete)
            } else if e.phase != SearchPublicationRetirementPhase::Pending {
                r == Err::<ArtifactCompletion, MetaStoreError>(
                    MetaStoreError::SearchPublication(SearchPublicationFailure::InvalidState),
                )
            } else {
                r matches Ok(ArtifactCompletion::Complete(updated)) && updated@
                    == with_artifact_removed(e@, artifact)
            },
        },
{
    let e = match existing {
        None => return Err(publication_error(SearchPublicationFailure::InvalidState)),
        Some(e) => e,
    };
    if e.has_removed(artifact) {
        return Ok(ArtifactCompletion::AlreadyComplete);
    }
    match e.phase {
        SearchPublicationRetirementPhase::Pending => {},
        SearchPublicationRetirementPhase::Complete => {
            return Err(publication_error(SearchPublicationFailure::InvalidState));
        },
    }
    Ok(ArtifactCompletion::Complete(e.with_removed(artifact)))
}

/// Whether a retirement is recorded and still pending.
pub fn retirement_is_pending(existing: Option<&SearchPublicationRetirement>) -> (r: bool)
    ensures
        r == (existing matches Some(e) && e.phase == SearchPublicationRetirementPhase::Pending),
{
    match existing {
        Some(e) => match e.phase {
            SearchPublicationRetirementPhase::Pending => true,
            SearchPublicationRetirementPhase::Complete => false,
        },
        None => false,
    }
}

/// Refuses work while any retirement is pending.
pub fn ensure_no_pending_retirement(pending: &[SearchPublicationRetirement]) -> (r: Result<
    (),
    MetaStoreError,
>)
    ensures
        r is Ok <==> pending@.len() == 0,
        r is Err ==> r == Err::<(), MetaStoreError>(
            MetaStoreError::SearchPublication(SearchPublicationFailure::InvalidState),
        ),
{
    if pending.len() == 0 {
        Ok(())
    } else {
        Err(publication_error(SearchPublicationFailure::InvalidState))
    }
}

/// Parses a stored boolean column.
pub fn parse_bool(value: i64) -> (r: Result<bool, MetaStoreError>)
    ensures
        value == 0 ==> r == Ok::<bool, MetaStoreError>(false),
        value == 1 ==> r == Ok::<bool, MetaStoreError>(true),
        value != 0 && value != 1 ==> r == Err::<bool, MetaStoreError>(
            MetaStoreError::SearchPublication(SearchPublicationFailure::InvalidPersistedState),
        ),
{
    if value == 0 {
        Ok(false)
    } else if value == 1 {
        Ok(true)
    } else {
        Err(publication_error(SearchPublicationFailure::InvalidPersistedState))
    }
}

/// A retirement row as stored.
#[derive(Clone, Debug, PartialEq, Eq)]
pub struct RetirementRow {
    pub generation: String,
    pub phase: String,
    pub fulltext_expectation: String,
    pub vector_expectation: String,
    pub fulltext_complete: i64,
    pub vector_complete: i64,
}

impl RetirementRow {
    /// A copy of the row.
    pub fn duplicate(&self) -> (r: Self)
        ensures
            r == *self,
    {
        RetirementRow {
            generation: self.generation.clone(),
            phase: self.phase.clone(),
            fulltext_expectation: self.fulltext_expectation.clone(),
            vector_expectation: self.vector_expectation.clone(),
            fulltext_complete: self.fulltext_complete,
            vector_complete: self.vector_complete,
        }
    }
}

/// A stored retirement row is well formed: known phase and expectation
/// labels and boolean flags.
pub open spec fn retirement_row_ok(row: RetirementRow) -> bool {
    &&& retirement_phase_from_label(row.phase@) is Some
    &&& artifact_expectation_from_label(row.fulltext_expectation@) is Some
    &&& artifact_expectation_from_label(row.vector_expectation@) is Some
    &&& (row.fulltext_complete == 0 || row.fulltext_complete == 1)
    &&& (row.vector_complete == 0 || row.vector_complete == 1)
}

/// The record a well-formed stored row holds.
pub open spec fn retirement_of_row(row: RetirementRow) -> RetirementView {
    RetirementView {
        generation: row.generation@,
        phase: retirement_phase_from_label(row.phase@).unwrap(),
        plan: SearchPublicationRetirementPlan {
            fulltext: artifact_expectation_from_label(row.fulltext_expectation@).unwrap(),
            vector: artifact_expectation_from_label(row.vector_expectation@).unwrap(),
        },
        fulltext_complete: row.fulltext_complete == 1,
        vector_complete: row.vector_complete == 1,
    }
}

/// Parses a stored retirement row; a malformed row is invalid persisted state.
pub fn parse_retirement_row(row: RetirementRow) -> (r: Result<
    SearchPublicationRetirement,
    MetaStoreError,
>)
    ensures
        retirement_row_checked(row) ==> (r matches Ok(v) ==> retirement_consistent(v@)),
        match r {
            Ok(v) => retirement_row_ok(row) && v@ == retirement_of_row(row),
            Err(e) => !retirement_row_ok(row) && e == MetaStoreError::SearchPublication(
                SearchPublicationFailure::InvalidPersistedState,
            ),
        },
{
    let phase = SearchPublicationRetirementPhase::parse(row.phase.as_str())?;
    let fulltext_complete = parse_bool(row.fulltext_complete)?;
    let vector_complete = parse_bool(row.vector_complete)?;
    let fulltext = SearchArtifactExpectation::parse(row.fulltext_expectation.as_str())?;
    let vector = SearchArtifactExpectation::parse(row.vector_expectation.as_str())?;
    proof {
        if retirement_row_checked(row) {
            checked_retirement_row_is_consistent(row);
        }
    }
    Ok(
        SearchPublicationRetirement {
            generation: row.generation,
            phase,
            plan: SearchPublicationRetirementPlan { fulltext, vector },
            fulltext_complete,
            vector_complete,
        },
    )
}

/// Parses the pending retirements read back for a replay: more than the
/// replay limit, or any malformed row, is invalid persisted state.
pub fn parse_pending_retirements(rows: Vec<RetirementRow>) -> (r: Result<
    Vec<SearchPublicationRetirement>,
    MetaStoreError,
>)
    ensures
        match r {
            Ok(v) => {
                &&& rows@.len() <= SEARCH_PUBLICATION_RETIREMENT_REPLAY_LIMIT
                &&& v@.len() == rows@.len()
                &&& forall|i: int|
                    0 <= i < rows@.len() ==> retirement_row_ok(#[trigger] rows@[i]) && v@[i]@
                        == retirement_of_row(rows@[i])
            },
            Err(e) => {
                &&& rows@.len() > SEARCH_PUBLICATION_RETIREMENT_REPLAY_LIMIT || exists|i: int|
                    0 <= i < rows@.len() && !retirement_row_ok(#[trigger] rows@[i])
                &&& e == MetaStoreError::SearchPublication(
                    SearchPublicationFailure::InvalidPersistedState,
                )
            },
        },
{
    if rows.len() > SEARCH_PUBLICATION_RETIREMENT_REPLAY_LIMIT {
        return Err(publication_error(SearchPublicationFailure::InvalidPersistedState));
    }
    let mut parsed: Vec<SearchPublicationRetirement> = Vec::new();
    let mut i: usize = 0;
    while i < rows.len()
        invariant
            i <= rows.len() <= SEARCH_PUBLICATION_RETIREMENT_REPLAY_LIMIT,
            parsed@.len() == i,
            forall|k: int|
                0 <= k < i ==> retirement_row_ok(#[trigger] rows@[k]) && parsed@[k]@
                    == retirement_of_row(rows@[k]),
        decreases rows.len() - i,
    {
        let row = rows[i].duplicate();
        match parse_retirement_row(row) {
            Ok(v) => parsed.push(v),
            Err(e) => return Err(e),
        }
        i += 1;
    }
    Ok(parsed)
}

/// The row checks of the retirement table: an artifact expected to be
/// absent is removed, a complete retirement has removed both artifacts, and a
/// pending one has not.
pub open spec fn retirement_row_checked(row: RetirementRow) -> bool {
    &&& (row.fulltext_expectation@ != "none"@ || row.fulltext_complete == 1)
    &&& (row.vector_expectation@ != "none"@ || row.vector_complete == 1)
    &&& (row.phase@ != "complete"@ || (row.fulltext_complete == 1 && row.vector_complete == 1))
    &&& (row.phase@ != "pending"@ || row.fulltext_complete == 0 || row.vector_complete == 0)
}

/// A well-formed row that passes the table's row checks reads back as a
/// consistent retirement of its generation.
pub proof fn checked_retirement_row_is_consistent(row: RetirementRow)
    requires
        retirement_row_ok(row),
        retirement_row_checked(row),
    ensures
        retirement_of_row(row).generation == row.generation@,
        retirement_consistent(retirement_of_row(row)),
{
    reveal_strlit("none");
    reveal_strlit("may_exist");
    reveal_strlit("published");
    reveal_strlit("pending");
    reveal_strlit("complete");
}

/// Whether a stored row holds exactly the columns written for a retirement
/// record: its generation, the labels of its phase and expectations, and its
/// flags as 0 or 1.
pub open spec fn row_holds_retirement(row: RetirementRow, r: RetirementView) -> bool {
    &&& row.generation@ == r.generation
    &&& row.phase@ == retirement_phase_label(r.phase)
    &&& row.fulltext_expectation@ == artifact_expectation_label(r.plan.fulltext)
    &&& row.vector_expectation@ == artifact_expectation_label(r.plan.vector)
    &&& row.fulltext_complete == (if r.fulltext_complete { 1i64 } else { 0i64 })
    &&& row.vector_complete == (if r.vector_complete { 1i64 } else { 0i64 })
}

/// Reading back the columns written for a retirement record parses, and
/// gives the same record.
pub proof fn stored_retirement_reads_back(row: RetirementRow, r: RetirementView)
    requires
        row_holds_retirement(row, r),
    ensures
        retirement_row_ok(row),
        retirement_of_row(row) == r,
{
    retirement_phase_label_round_trip(r.phase);
    artifact_expectation_label_round_trip(r.plan.fulltext);
    artifact_expectation_label_round_trip(r.plan.vector);
}

/// A new retirement record is consistent.
pub proof fn begun_retirement_is_consistent(
    generation: Seq<char>,
    plan: SearchPublicationRetirementPlan,
)
    ensures
        retirement_consistent(begun_retirement(generation, plan)),
{
}

/// A retirement begins for its generation under its plan with only the
/// artifacts expected to be absent counted as removed: an artifact that may
/// exist or was published must still be removed, and the retirement is
/// complete at once exactly when both artifacts are expected absent.
pub proof fn begun_retirement_removes_only_absent_artifacts(
    generation: Seq<char>,
    plan: SearchPublicationRetirementPlan,
)
    ensures
        begun_retirement(generation, plan).generation == generation,
        begun_retirement(generation, plan).plan == plan,
        begun_retirement(generation, plan).fulltext_complete <==> plan.fulltext
            == SearchArtifactExpectation::Absent,
        begun_retirement(generation, plan).vector_complete <==> plan.vector
            == SearchArtifactExpectation::Absent,
        begun_retirement(generation, plan).phase == SearchPublicationRetirementPhase::Complete
            <==> (plan.fulltext == SearchArtifactExpectation::Absent && plan.vector
            == SearchArtifactExpectation::Absent),
{
}

/// A retirement may begin only for a known publication that is not ready:
/// always for a preparing or validated publication without a recorded
/// retirement, and for an abandoned one only to repeat the same plan.
pub proof fn retirement_begins_only_for_unready_publications(
    state: Option<SearchPublicationState>,
    existing: Option<RetirementView>,
    plan: SearchPublicationRetirementPlan,
)
    ensures
        state is None ==> begin_refused(state, existing, plan),
        state == Some(SearchPublicationState::Ready) ==> begin_refused(state, existing, plan),
        (state == Some(SearchPublicationState::Preparing) || state == Some(
            SearchPublicationState::Validated,
        )) && existing is None ==> !begin_refused(state, existing, plan),
        existing is Some && !begin_refused(state, existing, plan) ==> existing.unwrap().plan
            == plan && state == Some(SearchPublicationState::Abandoned),
{
}

/// Removing an artifact marks exactly that artifact removed, keeps the
/// generation, the plan and the other artifact, and completes the retirement
/// exactly when the other artifact was already removed.
pub proof fn artifact_removal_marks_only_that_artifact(
    r: RetirementView,
    artifact: SearchPublicationRetirementArtifact,
)
    ensures
        ({
            let u = with_artifact_removed(r, artifact);
            &&& u.generation == r.generation
            &&& u.plan == r.plan
            &&& artifact_removed(u, artifact)
            &&& artifact == SearchPublicationRetirementArtifact::FullText ==> u.vector_complete
                == r.vector_complete
            &&& artifact == SearchPublicationRetirementArtifact::Vector ==> u.fulltext_complete
                == r.fulltext_complete
            &&& (u.phase == SearchPublicationRetirementPhase::Complete) == (u.fulltext_complete
                && u.vector_complete)
        }),
{
}

/// A retirement whose plan expects no artifact is complete when it begins.
pub proof fn empty_plan_retires_at_once(generation: Seq<char>)
    ensures
        begun_retirement(
            generation,
            SearchPublicationRetirementPlan {
                fulltext: SearchArtifactExpectation::Absent,
                vector: SearchArtifactExpectation::Absent,
            },
        ).phase == SearchPublicationRetirementPhase::Complete,
{
}

/// Removing an artifact keeps a retirement record consistent, and never
/// clears the flag of the other artifact.
pub proof fn artifact_removal_keeps_consistency(
    r: RetirementView,
    artifact: SearchPublicationRetirementArtifact,
)
    requires
        retirement_consistent(r),
    ensures
        retirement_consistent(with_artifact_removed(r, artifact)),
        artifact_removed(with_artifact_removed(r, artifact), artifact),
        r.fulltext_complete ==> with_artifact_removed(r, artifact).fulltext_complete,
        r.vector_complete ==> with_artifact_removed(r, artifact).vector_complete,
{
}

/// Removing both artifacts, in either order, completes a retirement and gives
/// the same record.
pub proof fn artifact_removal_order_is_irrelevant(r: RetirementView)
    ensures
        with_artifact_removed(
            with_artifact_removed(r, SearchPublicationRetirementArtifact::FullText),
            SearchPublicationRetirementArtifact::Vector,
        ) == with_artifact_removed(
            with_artifact_removed(r, SearchPublicationRetirementArtifact::Vector),
            SearchPublicationRetirementArtifact::FullText,
        ),
        with_artifact_removed(
            with_artifact_removed(r, SearchPublicationRetirementArtifact::FullText),
            SearchPublicationRetirementArtifact::Vector,
        ).phase == SearchPublicationRetirementPhase::Complete,
{
}

/// A consistent complete retirement is final: recording the removal of
/// either artifact again changes nothing.
pub proof fn complete_retirement_is_final(
    r: RetirementView,
    artifact: SearchPublicationRetirementArtifact,
)
    requires
        retirement_consistent(r),
        r.phase == SearchPublicationRetirementPhase::Complete,
    ensures
        artifact_removed(r, artifact),
{
}

/// Beginning the same retirement of an abandoned publication again is a
/// no-op.
pub proof fn repeated_begin_is_recorded(existing: RetirementView, plan: SearchPublicationRetirementPlan)
    requires
        existing.plan == plan,
    ensures
        !begin_refused(Some(SearchPublicationState::Abandoned), Some(existing), plan),
{
}

} // verus!
