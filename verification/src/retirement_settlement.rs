use vstd::prelude::*;
use crate::authority::{AuthorityView, PublicationAuthority};
use crate::descriptor_records::opt_string_view;
use crate::error::{publication_error, MetaStoreError, SearchPublicationFailure};
use crate::publication_model::{
    SearchPublicationRecord, SearchPublicationRetirementFailureOutcome, SearchPublicationState,
};
use crate::text::text_equal;

verus! {

/// One store check or update that settling a failed retirement performs.
/// Each answers yes or no; updates answer whether they changed exactly one
/// row.
#[derive(Clone, Copy, Debug, PartialEq, Eq, Structural)]
pub enum SettlementStep {
    /// Update: block the ready head the publication was based on.
    BlockCurrentHead,
    /// Check: that head is already blocked for a runtime invariant.
    ExactCurrentHeadBlocked,
    /// Check: the empty head of a migration rebuild is already blocked.
    ExactEmptyHeadBlocked,
    /// Check: the migration attempt already ended in cleanup failure.
    TerminalMigrationCleanup,
    /// Check: the migration barrier still has the recorded digest.
    MigrationBarrierMatches,
    /// Check: the recorded migration attempt is still running.
    RunningMigrationAttempt,
    /// Update: end the migration attempt in cleanup failure.
    SettleMigrationAttempt,
    /// Update: block the migration head.
    BlockMigrationHead,
    /// Check: the repair attempt already ended in cleanup failure.
    TerminalArtifactCleanup,
    /// Check: the recorded repair attempt is still running.
    RunningArtifactAttempt,
    /// Update: end the repair attempt in cleanup failure.
    SettleArtifactAttempt,
    /// Update: block the repaired head.
    BlockArtifactHead,
}

/// What settling does next.
#[derive(Clone, Copy, Debug, PartialEq, Eq, Structural)]
pub enum SettlementAction {
    /// Perform a step and report its answer.
    Perform(SettlementStep),
    /// Commit the transaction and report the outcome.
    Commit(SearchPublicationRetirementFailureOutcome),
    /// Roll the transaction back and report the outcome.
    Rollback(SearchPublicationRetirementFailureOutcome),
}

/// The first action of settling under an authority: a current-head
/// publication tries to block its head; a migration rebuild based on the
/// empty head first looks for an exact earlier block, otherwise checks its
/// barrier; an artifact repair of the head it was based on first looks for
/// an exact earlier cleanup failure, otherwise checks its attempt.
pub open spec fn settlement_start_action(
    authority: AuthorityView,
    base_generation: Option<Seq<char>>,
    expected_visible_epoch: u64,
) -> SettlementAction {
    match authority {
        AuthorityView::CurrentHead => SettlementAction::Perform(SettlementStep::BlockCurrentHead),
        AuthorityView::MigrationRebuild { .. } => if base_generation is None {
            SettlementAction::Perform(SettlementStep::ExactEmptyHeadBlocked)
        } else {
            SettlementAction::Perform(SettlementStep::MigrationBarrierMatches)
        },
        AuthorityView::ArtifactRepair { key, .. } => if base_generation == Some(key.generation)
            && expected_visible_epoch == key.visible_epoch {
            SettlementAction::Perform(SettlementStep::TerminalArtifactCleanup)
        } else {
            SettlementAction::Perform(SettlementStep::RunningArtifactAttempt)
        },
    }
}

/// The action after a step answered.
pub open spec fn settlement_next_action(step: SettlementStep, answer: bool) -> SettlementAction {
    match step {
        SettlementStep::BlockCurrentHead => if answer {
            SettlementAction::Commit(SearchPublicationRetirementFailureOutcome::HeadBlocked)
        } else {
            SettlementAction::Perform(SettlementStep::ExactCurrentHeadBlocked)
        },
        SettlementStep::ExactCurrentHeadBlocked => if answer {
            SettlementAction::Commit(
                SearchPublicationRetirementFailureOutcome::ExactHeadAlreadyBlocked,
            )
        } else {
            SettlementAction::Commit(SearchPublicationRetirementFailureOutcome::HeadSuperseded)
        },
        SettlementStep::ExactEmptyHeadBlocked => if answer {
            SettlementAction::Perform(SettlementStep::TerminalMigrationCleanup)
        } else {
            SettlementAction::Perform(SettlementStep::MigrationBarrierMatches)
        },
        SettlementStep::TerminalMigrationCleanup => if answer {
            SettlementAction::Commit(
                SearchPublicationRetirementFailureOutcome::ExactHeadAlreadyBlocked,
            )
        } else {
            SettlementAction::Perform(SettlementStep::MigrationBarrierMatches)
        },
        SettlementStep::MigrationBarrierMatches => if answer {
            SettlementAction::Perform(SettlementStep::RunningMigrationAttempt)
        } else {
            SettlementAction::Commit(SearchPublicationRetirementFailureOutcome::HeadSuperseded)
        },
        SettlementStep::RunningMigrationAttempt => if answer {
            SettlementAction::Perform(SettlementStep::SettleMigrationAttempt)
        } else {
            SettlementAction::Commit(SearchPublicationRetirementFailureOutcome::HeadSuperseded)
        },
        SettlementStep::SettleMigrationAttempt => if answer {
            SettlementAction::Perform(SettlementStep::BlockMigrationHead)
        } else {
            SettlementAction::Rollback(SearchPublicationRetirementFailureOutcome::HeadSuperseded)
        },
        SettlementStep::BlockMigrationHead => if answer {
            SettlementAction::Commit(SearchPublicationRetirementFailureOutcome::HeadBlocked)
        } else {
            SettlementAction::Rollback(SearchPublicationRetirementFailureOutcome::HeadSuperseded)
        },
        SettlementStep::TerminalArtifactCleanup => if answer {
            SettlementAction::Commit(
                SearchPublicationRetirementFailureOutcome::ExactHeadAlreadyBlocked,
            )
        } else {
            SettlementAction::Perform(SettlementStep::RunningArtifactAttempt)
        },
        SettlementStep::RunningArtifactAttempt => if answer {
            SettlementAction::Perform(SettlementStep::SettleArtifactAttempt)
        } else {
            SettlementAction::Commit(SearchPublicationRetirementFailureOutcome::HeadSuperseded)
        },
        SettlementStep::SettleArtifactAttempt => if answer {
            SettlementAction::Perform(SettlementStep::BlockArtifactHead)
        } else {
            SettlementAction::Rollback(SearchPublicationRetirementFailureOutcome::HeadSuperseded)
        },
        SettlementStep::BlockArtifactHead => if answer {
            SettlementAction::Commit(SearchPublicationRetirementFailureOutcome::HeadBlocked)
        } else {
            SettlementAction::Rollback(SearchPublicationRetirementFailureOutcome::HeadSuperseded)
        },
    }
}

/// Checks the publication whose retirement failed: it must be recorded and
/// abandoned. The retirement itself must be pending, which the caller checks
/// first.
pub fn check_settlement_publication(publication: Option<&SearchPublicationRecord>) -> (r: Result<
    (),
    MetaStoreError,
>)
    ensures
        r is Ok <==> (publication matches Some(p) && p.state == SearchPublicationState::Abandoned),
        r is Err ==> r == Err::<(), MetaStoreError>(
            MetaStoreError::SearchPublication(SearchPublicationFailure::InvalidState),
        ),
{
    match publication {
        Some(p) => match p.state {
            SearchPublicationState::Abandoned => Ok(()),
            _ => Err(publication_error(SearchPublicationFailure::InvalidState)),
        },
        None => Err(publication_error(SearchPublicationFailure::InvalidState)),
    }
}

fn opt_matches(value: &Option<String>, expected: &str) -> (r: bool)
    ensures
        r == (opt_string_view(*value) == Some(expected@)),
{
    match value {
        Some(v) => text_equal(v.as_str(), expected),
        None => false,
    }
}

/// The first action of settling a failed retirement, given the authority
/// recorded for the publication; a publication without a recorded authority
/// is invalid persisted state.
pub fn settlement_start(
    authority: Option<&PublicationAuthority>,
    publication: &SearchPublicationRecord,
) -> (r: Result<SettlementAction, MetaStoreError>)
    ensures
        match authority {
            None => r == Err::<SettlementAction, MetaStoreError>(
                MetaStoreError::SearchPublication(SearchPublicationFailure::InvalidPersistedState),
            ),
            Some(a) => r == Ok::<SettlementAction, MetaStoreError>(
                settlement_start_action(
                    a@,
                    opt_string_view(publication.base_generation),
                    publication.expected_visible_epoch,
                ),
            ),
        },
{
    let authority = match authority {
        Some(a) => a,
        None => return Err(publication_error(SearchPublicationFailure::InvalidPersistedState)),
    };
    match authority {
        PublicationAuthority::CurrentHead => Ok(
            SettlementAction::Perform(SettlementStep::BlockCurrentHead),
        ),
        PublicationAuthority::MigrationRebuild { .. } => if publication.base_generation.is_none() {
            Ok(SettlementAction::Perform(SettlementStep::ExactEmptyHeadBlocked))
        } else {
            Ok(SettlementAction::Perform(SettlementStep::MigrationBarrierMatches))
        },
        PublicationAuthority::ArtifactRepair { key, .. } => if opt_matches(
            &publication.base_generation,
            key.generation(),
        ) && publication.expected_visible_epoch == key.visible_epoch() {
            Ok(SettlementAction::Perform(SettlementStep::TerminalArtifactCleanup))
        } else {
            Ok(SettlementAction::Perform(SettlementStep::RunningArtifactAttempt))
        },
    }
}

/// The action after a settlement step answered.
pub fn settlement_next(step: SettlementStep, answer: bool) -> (r: SettlementAction)
    ensures
        r == settlement_next_action(step, answer),
{
    match step {
        SettlementStep::BlockCurrentHead => if answer {
            SettlementAction::Commit(SearchPublicationRetirementFailureOutcome::HeadBlocked)
        } else {
            SettlementAction::Perform(SettlementStep::ExactCurrentHeadBlocked)
        },
        SettlementStep::ExactCurrentHeadBlocked => if answer {
            SettlementAction::Commit(
                SearchPublicationRetirementFailureOutcome::ExactHeadAlreadyBlocked,
            )
        } else {
            SettlementAction::Commit(SearchPublicationRetirementFailureOutcome::HeadSuperseded)
        },
        SettlementStep::ExactEmptyHeadBlocked => if answer {
            SettlementAction::Perform(SettlementStep::TerminalMigrationCleanup)
        } else {
            SettlementAction::Perform(SettlementStep::MigrationBarrierMatches)
        },
        SettlementStep::TerminalMigrationCleanup => if answer {
            SettlementAction::Commit(
                SearchPublicationRetirementFailureOutcome::ExactHeadAlreadyBlocked,
            )
        } else {
            SettlementAction::Perform(SettlementStep::MigrationBarrierMatches)
        },
        SettlementStep::MigrationBarrierMatches => if answer {
            SettlementAction::Perform(SettlementStep::RunningMigrationAttempt)
        } else {
            SettlementAction::Commit(SearchPublicationRetirementFailureOutcome::HeadSuperseded)
        },
        SettlementStep::RunningMigrationAttempt => if answer {
            SettlementAction::Perform(SettlementStep::SettleMigrationAttempt)
        } else {
            SettlementAction::Commit(SearchPublicationRetirementFailureOutcome::HeadSuperseded)
        },
        SettlementStep::SettleMigrationAttempt => if answer {
            SettlementAction::Perform(SettlementStep::BlockMigrationHead)
        } else {
            SettlementAction::Rollback(SearchPublicationRetirementFailureOutcome::HeadSuperseded)
        },
        SettlementStep::BlockMigrationHead => if answer {
            SettlementAction::Commit(SearchPublicationRetirementFailureOutcome::HeadBlocked)
        } else {
            SettlementAction::Rollback(SearchPublicationRetirementFailureOutcome::HeadSuperseded)
        },
        SettlementStep::TerminalArtifactCleanup => if answer {
            SettlementAction::Commit(
                SearchPublicationRetirementFailureOutcome::ExactHeadAlreadyBlocked,
            )
        } else {
            SettlementAction::Perform(SettlementStep::RunningArtifactAttempt)
        },
        SettlementStep::RunningArtifactAttempt => if answer {
            SettlementAction::Perform(SettlementStep::SettleArtifactAttempt)
        } else {
            SettlementAction::Commit(SearchPublicationRetirementFailureOutcome::HeadSuperseded)
        },
        SettlementStep::SettleArtifactAttempt => if answer {
            SettlementAction::Perform(SettlementStep::BlockArtifactHead)
        } else {
            SettlementAction::Rollback(SearchPublicationRetirementFailureOutcome::HeadSuperseded)
        },
        SettlementStep::BlockArtifactHead => if answer {
            SettlementAction::Commit(SearchPublicationRetirementFailureOutcome::HeadBlocked)
        } else {
            SettlementAction::Rollback(SearchPublicationRetirementFailureOutcome::HeadSuperseded)
        },
    }
}

/// Steps left at most before settling ends.
pub open spec fn steps_left(step: SettlementStep) -> nat {
    match step {
        SettlementStep::BlockCurrentHead => 2,
        SettlementStep::ExactCurrentHeadBlocked => 1,
        SettlementStep::ExactEmptyHeadBlocked => 6,
        SettlementStep::TerminalMigrationCleanup => 5,
        SettlementStep::MigrationBarrierMatches => 4,
        SettlementStep::RunningMigrationAttempt => 3,
        SettlementStep::SettleMigrationAttempt => 2,
        SettlementStep::BlockMigrationHead => 1,
        SettlementStep::TerminalArtifactCleanup => 4,
        SettlementStep::RunningArtifactAttempt => 3,
        SettlementStep::SettleArtifactAttempt => 2,
        SettlementStep::BlockArtifactHead => 1,
    }
}

/// An update step changes the store.
pub open spec fn is_update(step: SettlementStep) -> bool {
    match step {
        SettlementStep::BlockCurrentHead | SettlementStep::SettleMigrationAttempt
        | SettlementStep::BlockMigrationHead | SettlementStep::SettleArtifactAttempt
        | SettlementStep::BlockArtifactHead => true,
        _ => false,
    }
}

/// Settling always ends: every step either ends it or leads to a step with
/// fewer steps left, so at most six steps run.
pub proof fn settlement_terminates(step: SettlementStep, answer: bool)
    ensures
        settlement_next_action(step, answer) matches SettlementAction::Perform(next) ==> steps_left(
            next,
        ) < steps_left(step),
        steps_left(step) <= 6,
{
}

/// The head is reported blocked only when the update that blocks it changed
/// exactly one row; it is reported already blocked only when a check found
/// the exact earlier block.
pub proof fn blocked_outcomes_are_witnessed(step: SettlementStep, answer: bool)
    ensures
        settlement_next_action(step, answer) == SettlementAction::Commit(
            SearchPublicationRetirementFailureOutcome::HeadBlocked,
        ) ==> answer && (step == SettlementStep::BlockCurrentHead || step
            == SettlementStep::BlockMigrationHead || step == SettlementStep::BlockArtifactHead),
        settlement_next_action(step, answer) == SettlementAction::Commit(
            SearchPublicationRetirementFailureOutcome::ExactHeadAlreadyBlocked,
        ) ==> answer && !is_update(step),
{
}

/// A stale settlement changes nothing: when an update after the attempt
/// settled finds no row, or the attempt cannot be settled, the whole
/// transaction rolls back and the head is reported superseded; a rollback
/// happens only there.
pub proof fn stale_settlement_rolls_back(step: SettlementStep, answer: bool)
    ensures
        settlement_next_action(step, answer) is Rollback ==> !answer && is_update(step)
            && step != SettlementStep::BlockCurrentHead && settlement_next_action(step, answer)
            == SettlementAction::Rollback(SearchPublicationRetirementFailureOutcome::HeadSuperseded),
        is_update(step) && step != SettlementStep::BlockCurrentHead && !answer
            ==> settlement_next_action(step, answer) is Rollback,
{
}

} // verus!
