use vstd::prelude::*;
use vstd::utf8::*;
use crate::authority::PublicationAuthority;
use crate::descriptor_records::opt_string_view;
use crate::digest::{digest_text, ContentDigest};
use crate::error::{publication_error, MetaStoreError, SearchPublicationFailure};
use crate::fingerprint::{current_parts, fingerprint_encoding, search_publication_fingerprint};
use crate::publication_model::{
    SearchPublicationOutcome, SearchPublicationRecord, SearchPublicationState,
    SearchPublicationValidation,
};
use crate::text::text_equal;

verus! {

/// A change that the store makes to the state of a journaled publication.
#[derive(Clone, Copy, Debug, PartialEq, Eq, Structural)]
pub enum PublicationStep {
    /// Record validated descriptors.
    Validate,
    /// Make the publication the visible head.
    Commit,
    /// Begin its retirement.
    Abandon,
}

/// The state a step leads to, if the step is allowed from `from`: only a
/// preparing publication may be validated, only a validated one committed,
/// and any publication but a ready one abandoned (an abandoned one stays
/// abandoned).
pub open spec fn step_target(from: SearchPublicationState, step: PublicationStep) -> Option<
    SearchPublicationState,
> {
    match step {
        PublicationStep::Validate => if from == SearchPublicationState::Preparing {
            Some(SearchPublicationState::Validated)
        } else {
            None
        },
        PublicationStep::Commit => if from == SearchPublicationState::Validated {
            Some(SearchPublicationState::Ready)
        } else {
            None
        },
        PublicationStep::Abandon => if from == SearchPublicationState::Ready {
            None
        } else {
            Some(SearchPublicationState::Abandoned)
        },
    }
}

/// The state a publication moves to under a step, or `None` where the step
/// is refused.
pub fn next_publication_state(from: SearchPublicationState, step: PublicationStep) -> (r: Option<
    SearchPublicationState,
>)
    ensures
        r == step_target(from, step),
{
    match step {
        PublicationStep::Validate => match from {
            SearchPublicationState::Preparing => Some(SearchPublicationState::Validated),
            _ => None,
        },
        PublicationStep::Commit => match from {
            SearchPublicationState::Validated => Some(SearchPublicationState::Ready),
            _ => None,
        },
        PublicationStep::Abandon => match from {
            SearchPublicationState::Ready => None,
            _ => Some(SearchPublicationState::Abandoned),
        },
    }
}

/// Position of a state on the way from preparing to ready.
pub open spec fn state_rank(state: SearchPublicationState) -> int {
    match state {
        SearchPublicationState::Preparing => 0,
        SearchPublicationState::Validated => 1,
        SearchPublicationState::Ready => 2,
        SearchPublicationState::Abandoned => 3,
    }
}

/// A publication only moves forward: every allowed step either keeps an
/// abandoned publication abandoned or moves to a later state; a ready
/// publication never changes and an abandoned one never becomes visible.
pub proof fn publication_states_move_forward(from: SearchPublicationState, step: PublicationStep)
    ensures
        step_target(from, step) matches Some(to) ==> (state_rank(to) > state_rank(from) || (from
            == SearchPublicationState::Abandoned && to == SearchPublicationState::Abandoned)),
        from == SearchPublicationState::Ready ==> step_target(from, step) is None,
        from == SearchPublicationState::Abandoned ==> step_target(from, step) is None || step_target(
            from,
            step,
        ) == Some(SearchPublicationState::Abandoned),
{
}

/// A publication becomes ready only through validation and commit, in this
/// order, from preparing.
pub proof fn ready_only_after_validation(
    from: SearchPublicationState,
    first: PublicationStep,
    second: PublicationStep,
)
    requires
        from == SearchPublicationState::Preparing,
        step_target(from, first) matches Some(mid) && step_target(mid, second) == Some(
            SearchPublicationState::Ready,
        ),
    ensures
        first == PublicationStep::Validate,
        second == PublicationStep::Commit,
{
}

/// What beginning a publication records.
pub struct BeginPlan {
    /// Whether the publication may go on or was superseded at once.
    pub outcome: SearchPublicationOutcome,
    /// The authority recorded; a superseded publication records the
    /// current head.
    pub authority: PublicationAuthority,
    /// Whether the superseded publication is retired in the same
    /// transaction, with nothing to remove.
    pub retire_now: bool,
}

/// Plans the journal entry of a new publication from the authority it may
/// claim: with one it is applied, without one it is superseded, recorded
/// under the current head and retired at once.
pub fn plan_begin(authority: Option<PublicationAuthority>) -> (r: BeginPlan)
    ensures
        match authority {
            Some(a) => r.outcome == SearchPublicationOutcome::Applied && r.authority == a
                && !r.retire_now,
            None => r.outcome == SearchPublicationOutcome::Superseded && r.authority
                == PublicationAuthority::CurrentHead && r.retire_now,
        },
{
    match authority {
        Some(a) => BeginPlan { outcome: SearchPublicationOutcome::Applied, authority: a, retire_now: false },
        None => BeginPlan {
            outcome: SearchPublicationOutcome::Superseded,
            authority: PublicationAuthority::CurrentHead,
            retire_now: true,
        },
    }
}

/// A count in its stored form; one beyond the stored integer range is an
/// invalid descriptor.
pub fn storage_count(value: u64) -> (r: Result<i64, MetaStoreError>)
    ensures
        value <= i64::MAX ==> r == Ok::<i64, MetaStoreError>(value as i64),
        value > i64::MAX ==> r == Err::<i64, MetaStoreError>(
            MetaStoreError::SearchPublication(SearchPublicationFailure::InvalidDescriptor),
        ),
{
    if value <= 9_223_372_036_854_775_807u64 {
        Ok(value as i64)
    } else {
        Err(publication_error(SearchPublicationFailure::InvalidDescriptor))
    }
}

/// Checks the journaled publication that descriptors are recorded for and
/// gives its fingerprint: it must be preparing and have the full-text
/// snapshot's projection digest.
pub fn validation_fingerprint(
    publication: Option<&SearchPublicationRecord>,
    validation: &SearchPublicationValidation,
) -> (r: Result<ContentDigest, MetaStoreError>)
    ensures
        match publication {
            None => r == Err::<ContentDigest, MetaStoreError>(
                MetaStoreError::SearchPublication(SearchPublicationFailure::InvalidState),
            ),
            Some(p) => if p.state != SearchPublicationState::Preparing || p.projection_digest@
                != validation.fulltext@.projection_digest {
                r == Err::<ContentDigest, MetaStoreError>(
                    MetaStoreError::SearchPublication(SearchPublicationFailure::InvalidState),
                )
            } else {
                r matches Ok(f) && encode_utf8(f@) == digest_text(
                    fingerprint_encoding(
                        current_parts(
                            p.classifier_epoch@,
                            p.projection_digest@,
                            validation.fulltext@,
                            validation.vector@,
                        ),
                    ),
                )
            },
        },
{
    let publication = match publication {
        Some(p) => p,
        None => return Err(publication_error(SearchPublicationFailure::InvalidState)),
    };
    match publication.state {
        SearchPublicationState::Preparing => {},
        _ => return Err(publication_error(SearchPublicationFailure::InvalidState)),
    }
    if !publication.projection_digest.same_as(validation.fulltext.projection_digest()) {
        return Err(publication_error(SearchPublicationFailure::InvalidState));
    }
    Ok(
        search_publication_fingerprint(
            publication.classifier_epoch.as_str(),
            &publication.projection_digest,
            validation.fulltext,
            validation.vector,
        ),
    )
}

/// The journaled publication a commit names must be validated.
pub fn commit_candidate(publication: Option<SearchPublicationRecord>) -> (r: Result<
    SearchPublicationRecord,
    MetaStoreError,
>)
    ensures
        match publication {
            Some(p) if p.state == SearchPublicationState::Validated => r == Ok::<
                SearchPublicationRecord,
                MetaStoreError,
            >(p),
            _ => r == Err::<SearchPublicationRecord, MetaStoreError>(
                MetaStoreError::SearchPublication(SearchPublicationFailure::InvalidState),
            ),
        },
{
    match publication {
        Some(p) => match p.state {
            SearchPublicationState::Validated => Ok(p),
            _ => Err(publication_error(SearchPublicationFailure::InvalidState)),
        },
        None => Err(publication_error(SearchPublicationFailure::InvalidState)),
    }
}

fn opt_text_same(a: &Option<String>, b: Option<&str>) -> (r: bool)
    ensures
        r == (opt_string_view(*a) == match b {
            Some(x) => Some(x@),
            None => None,
        }),
{
    match (a, b) {
        (Some(x), Some(y)) => text_equal(x.as_str(), y),
        (None, None) => true,
        _ => false,
    }
}

/// Whether a validated publication still applies: its authority still holds
/// and the head is still the one it was based on. A negative stored epoch is
/// invalid persisted state.
pub fn commit_applies(
    publication: &SearchPublicationRecord,
    precondition_matches: bool,
    head_generation: Option<&str>,
    head_visible_epoch: i64,
) -> (r: Result<bool, MetaStoreError>)
    ensures
        head_visible_epoch < 0 ==> r == Err::<bool, MetaStoreError>(
            MetaStoreError::SearchPublication(SearchPublicationFailure::InvalidPersistedState),
        ),
        head_visible_epoch >= 0 ==> r == Ok::<bool, MetaStoreError>(
            precondition_matches && opt_string_view(publication.base_generation) == match head_generation {
                Some(x) => Some(x@),
                None => None,
            } && head_visible_epoch == publication.expected_visible_epoch,
        ),
{
    if head_visible_epoch < 0 {
        return Err(publication_error(SearchPublicationFailure::InvalidPersistedState));
    }
    Ok(precondition_matches && opt_text_same(&publication.base_generation, head_generation)
        && head_visible_epoch as u64 == publication.expected_visible_epoch)
}

/// The visible epoch after a publication commits: one past the epoch it
/// expected.
pub fn next_visible_epoch(publication: &SearchPublicationRecord) -> (r: Result<u64, MetaStoreError>)
    ensures
        publication.expected_visible_epoch < u64::MAX ==> r == Ok::<u64, MetaStoreError>(
            (publication.expected_visible_epoch + 1) as u64,
        ),
        publication.expected_visible_epoch == u64::MAX ==> r == Err::<u64, MetaStoreError>(
            MetaStoreError::SearchPublication(SearchPublicationFailure::InvalidState),
        ),
{
    match publication.expected_visible_epoch.checked_add(1) {
        Some(n) => Ok(n),
        None => Err(publication_error(SearchPublicationFailure::InvalidState)),
    }
}

/// A compare-and-set update of the store changed exactly one row, or the
/// state it expected is gone.
pub fn require_single_change(changed: usize, failure: SearchPublicationFailure) -> (r: Result<
    (),
    MetaStoreError,
>)
    ensures
        changed == 1 ==> r == Ok::<(), MetaStoreError>(()),
        changed != 1 ==> r == Err::<(), MetaStoreError>(MetaStoreError::SearchPublication(failure)),
{
    if changed == 1 {
        Ok(())
    } else {
        Err(publication_error(failure))
    }
}

} // verus!
