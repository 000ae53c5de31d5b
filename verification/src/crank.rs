use crate::amounts::window_seconds;
use crate::arbitration::{approval_amounts, approved, settle_approval};
use crate::claims::{proof_refusal, release_claim, released};
use crate::error::QuestError;
use crate::events::{ClaimExpired, QuestCompleted};
use crate::ledger::Effects;
use crate::state::{Claim, ClaimStatus, Quest, QuestConfig};
use anchor_lang::prelude::Pubkey;
use vstd::prelude::*;

verus! {

/// Why `claim` cannot be expired at the moment `now`, if so: the claim is not
/// active, or `now` is not yet past the proof deadline, in this order.
pub open spec fn expiry_refusal(claim: Claim, now: i64) -> Option<QuestError> {
    if claim.status != ClaimStatus::Active {
        Some(QuestError::ClaimNotActive)
    } else if now <= claim.proof_deadline {
        Some(QuestError::DeadlineNotReached)
    } else {
        None
    }
}

/// Why `claim` cannot be approved by timeout at the moment `now`, if so: the
/// claim is not under review, it carries no review deadline, `now` is not yet
/// past that deadline, or the amounts overflow, in this order.
pub open spec fn auto_approval_refusal(config: QuestConfig, quest: Quest, claim: Claim, now: i64) -> Option<
    QuestError,
> {
    if claim.status != ClaimStatus::Submitted {
        Some(QuestError::ClaimNotSubmitted)
    } else if claim.review_deadline is None {
        Some(QuestError::NoReviewDeadline)
    } else if now <= claim.review_deadline->0 {
        Some(QuestError::DeadlineNotReached)
    } else if approval_amounts(quest.reward_amount, config.fee_basis_points, claim.stake_amount)
        is None {
        Some(QuestError::Overflow)
    } else {
        None
    }
}

/// Nobody can hold a crank up. An active claim can be expired at every
/// moment after its proof deadline. A claim under review can be approved at
/// every moment after its review deadline, provided only that the amounts of
/// the approval fit.
pub proof fn cranks_cannot_be_held_up(config: QuestConfig, quest: Quest, claim: Claim, now: i64)
    ensures
        claim.status == ClaimStatus::Active && now > claim.proof_deadline ==> expiry_refusal(
            claim,
            now,
        ) is None,
        claim.status == ClaimStatus::Submitted && claim.review_deadline is Some && now
            > claim.review_deadline->0 && approval_amounts(
            quest.reward_amount,
            config.fee_basis_points,
            claim.stake_amount,
        ) is Some ==> auto_approval_refusal(config, quest, claim, now) is None,
{
}

/// Anyone expires an active claim whose proof deadline has passed.
///
/// Refused, with nothing changed, as `expiry_refusal` says: it succeeds only
/// strictly after the proof deadline. Otherwise stake and claimer count are
/// dealt with as in an abandonment, and the claim becomes `Expired`.
pub fn expire_claim(quest: &mut Quest, claim: &mut Claim, now: i64) -> (outcome: Result<
    Effects<ClaimExpired>,
    QuestError,
>)
    ensures
        match outcome {
            Ok(effects) => {
                &&& expiry_refusal(*old(claim), now) is None
                &&& now > old(claim).proof_deadline
                &&& released(
                    ClaimStatus::Expired,
                    *old(quest),
                    *old(claim),
                    *final(quest),
                    *final(claim),
                    effects.transfers@,
                )
                &&& effects.event == (ClaimExpired {
                    quest_id: old(quest).id,
                    claimer: old(claim).claimer,
                })
            },
            Err(reason) => {
                &&& expiry_refusal(*old(claim), now) == Some(reason)
                &&& *final(quest) == *old(quest)
                &&& *final(claim) == *old(claim)
            },
        },
        old(quest).well_formed() ==> final(quest).well_formed(),
        old(claim).well_timed(*old(quest)) ==> final(claim).well_timed(*final(quest)),
{
    if claim.status != ClaimStatus::Active {
        return Err(QuestError::ClaimNotActive);
    }
    if now <= claim.proof_deadline {
        return Err(QuestError::DeadlineNotReached);
    }
    let transfers = release_claim(quest, claim, ClaimStatus::Expired);
    let event = ClaimExpired { quest_id: quest.id, claimer: claim.claimer };
    Ok(Effects { transfers, event })
}

/// Anyone approves a claim whose review deadline has passed without a word
/// from the arbiter.
///
/// Refused, with nothing changed, as `auto_approval_refusal` says: it
/// succeeds only strictly after the review deadline. Otherwise it pays and
/// closes exactly as the arbiter's approval does.
pub fn auto_approve(config: &QuestConfig, quest: &mut Quest, claim: &mut Claim, now: i64) -> (outcome:
    Result<Effects<QuestCompleted>, QuestError>)
    ensures
        match outcome {
            Ok(effects) => {
                &&& auto_approval_refusal(*config, *old(quest), *old(claim), now) is None
                &&& old(claim).review_deadline matches Some(deadline) && now > deadline
                &&& approved(
                    config.fee_basis_points,
                    *old(quest),
                    *old(claim),
                    *final(quest),
                    *final(claim),
                    effects.transfers@,
                    effects.event,
                )
            },
            Err(reason) => {
                &&& auto_approval_refusal(*config, *old(quest), *old(claim), now) == Some(reason)
                &&& *final(quest) == *old(quest)
                &&& *final(claim) == *old(claim)
            },
        },
        old(quest).well_formed() ==> final(quest).well_formed(),
        old(claim).well_timed(*old(quest)) ==> final(claim).well_timed(*final(quest)),
{
    if claim.status != ClaimStatus::Submitted {
        return Err(QuestError::ClaimNotSubmitted);
    }
    let review_deadline = match claim.review_deadline {
        Some(at) => at,
        None => {
            return Err(QuestError::NoReviewDeadline);
        },
    };
    if now <= review_deadline {
        return Err(QuestError::DeadlineNotReached);
    }
    settle_approval(config.fee_basis_points, quest, claim)
}

/// A claim whose deadlines agree with its quest's windows can be expired
/// only strictly after the proof window has run from the moment of the
/// claim, and a proof is taken up to that moment and not after.
pub proof fn expiry_waits_for_the_proof_window(quest: Quest, claim: Claim, caller: Pubkey, now: i64)
    requires
        claim.well_timed(quest),
    ensures
        expiry_refusal(claim, now) is None ==> now > claim.claimed_at + window_seconds(
            quest.proof_deadline_hours,
        ),
        proof_refusal(quest, claim, caller, now) is None ==> now <= claim.claimed_at
            + window_seconds(quest.proof_deadline_hours),
        !(expiry_refusal(claim, now) is None && proof_refusal(quest, claim, caller, now) is None),
{
}

/// A claim whose deadlines agree with its quest's windows can be approved
/// by timeout only strictly after the review window has run from the moment
/// of submission; a claim under review always carries that deadline.
pub proof fn auto_approval_waits_for_the_review_window(
    config: QuestConfig,
    quest: Quest,
    claim: Claim,
    now: i64,
)
    requires
        claim.well_timed(quest),
    ensures
        auto_approval_refusal(config, quest, claim, now) is None ==> claim.submitted_at is Some
            && now > claim.submitted_at->0 + window_seconds(quest.review_deadline_hours),
        auto_approval_refusal(config, quest, claim, now) != Some(QuestError::NoReviewDeadline),
{
}

} // verus!
