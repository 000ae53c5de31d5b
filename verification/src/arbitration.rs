use crate::amounts::{compute_fee, fee_split, fee_split_is_exact, BPS_DENOMINATOR};
use crate::error::QuestError;
use crate::events::{FailReason, QuestCompleted, QuestFailed};
use crate::keys::same_key;
use crate::ledger::{pay, payout, Effects, Party, Transfer};
use crate::state::{Claim, ClaimStatus, Quest, QuestConfig, QuestStatus};
use anchor_lang::prelude::Pubkey;
use vstd::prelude::*;

verus! {

/// The amounts of an approval: the fee, the net reward, and what the claimer
/// gets, which is the net reward and the stake. `None` where the fee cannot
/// be split off or the claimer's sum leaves `u64`.
pub open spec fn approval_amounts(reward: u64, fee_bps: u16, stake: u64) -> Option<
    (u64, u64, u64),
> {
    match fee_split(reward, fee_bps) {
        Some((fee, net)) => if net + stake > u64::MAX {
            None
        } else {
            Some((fee, net, (net + stake) as u64))
        },
        None => None,
    }
}

/// The transfers of an approval: the claimer's sum first, then the fee to the
/// treasury unless it is zero.
pub open spec fn approval_transfers(fee: u64, claimer_sum: u64) -> Seq<Transfer> {
    if fee > 0 {
        seq![payout(Party::Claimer, claimer_sum), payout(Party::Treasury, fee)]
    } else {
        seq![payout(Party::Claimer, claimer_sum)]
    }
}

/// What an approval at the rate `fee_bps` makes of a quest and a claim: both
/// move to their approved status and nothing else in them changes, the
/// escrow pays the claimer's sum and the fee, and the event reports the net
/// reward and the fee.
pub open spec fn approved(
    fee_bps: u16,
    quest: Quest,
    claim: Claim,
    quest_after: Quest,
    claim_after: Claim,
    transfers: Seq<Transfer>,
    event: QuestCompleted,
) -> bool {
    &&& approval_amounts(quest.reward_amount, fee_bps, claim.stake_amount) matches Some(
        (fee, net, claimer_sum),
    )
    &&& quest_after == quest.moved_to(QuestStatus::Completed)
    &&& claim_after == claim.moved_to(ClaimStatus::Approved)
    &&& transfers == approval_transfers(fee, claimer_sum)
    &&& event == (QuestCompleted {
        quest_id: quest.id,
        claimer: claim.claimer,
        reward_amount: net,
        fee_amount: fee,
    })
}

/// Why the arbiter's approval is refused, if it is: the claim is not under
/// review, the caller is not the authority, or the amounts overflow, in this
/// order.
pub open spec fn approval_refusal(
    config: QuestConfig,
    quest: Quest,
    claim: Claim,
    authority: Pubkey,
) -> Option<QuestError> {
    if claim.status != ClaimStatus::Submitted {
        Some(QuestError::ClaimNotSubmitted)
    } else if authority != config.authority {
        Some(QuestError::NotOracle)
    } else if approval_amounts(quest.reward_amount, config.fee_basis_points, claim.stake_amount)
        is None {
        Some(QuestError::Overflow)
    } else {
        None
    }
}

/// Why a rejection is refused, if it is: the claim is not under review, the
/// caller is not the authority, or, for an ordinary rejection, reward and
/// stake together leave `u64`, in this order.
pub open spec fn rejection_refusal(
    config: QuestConfig,
    quest: Quest,
    claim: Claim,
    authority: Pubkey,
    safety_flagged: bool,
) -> Option<QuestError> {
    if claim.status != ClaimStatus::Submitted {
        Some(QuestError::ClaimNotSubmitted)
    } else if authority != config.authority {
        Some(QuestError::NotOracle)
    } else if !safety_flagged && quest.reward_amount + claim.stake_amount > u64::MAX {
        Some(QuestError::Overflow)
    } else {
        None
    }
}

/// The transfers of a rejection. Safety-flagged, the task was at fault: the
/// reward goes back to the creator and, in a transfer of its own, the stake
/// back to the claimer, unless it is zero. Otherwise the claimer was at fault:
/// reward and stake go to the creator in one transfer.
pub open spec fn rejection_transfers(reward: u64, stake: u64, safety_flagged: bool) -> Seq<
    Transfer,
> {
    if safety_flagged {
        if stake > 0 {
            seq![payout(Party::Creator, reward), payout(Party::Claimer, stake)]
        } else {
            seq![payout(Party::Creator, reward)]
        }
    } else {
        seq![payout(Party::Creator, (reward + stake) as u64)]
    }
}

/// An approval pays and closes the same way however it comes about: rate,
/// quest and claim determine everything that `approved` admits.
pub proof fn approval_is_determined(
    fee_bps: u16,
    quest: Quest,
    claim: Claim,
    one: (Quest, Claim, Seq<Transfer>, QuestCompleted),
    other: (Quest, Claim, Seq<Transfer>, QuestCompleted),
)
    requires
        approved(fee_bps, quest, claim, one.0, one.1, one.2, one.3),
        approved(fee_bps, quest, claim, other.0, other.1, other.2, other.3),
    ensures
        one == other,
{
}

/// At a rate of at most one hundred percent, where the product of reward and
/// rate fits in `u64` and so does the sum of reward and stake, the amounts of
/// an approval exist, and the claimer's sum and the fee together are exactly
/// reward and stake.
pub proof fn approval_pays_reward_and_stake(reward: u64, fee_bps: u16, stake: u64)
    requires
        fee_bps <= BPS_DENOMINATOR,
        reward * fee_bps <= u64::MAX,
        reward + stake <= u64::MAX,
    ensures
        approval_amounts(reward, fee_bps, stake) matches Some((fee, net, claimer_sum)) && {
            &&& fee + net == reward
            &&& claimer_sum == net + stake
            &&& claimer_sum + fee == reward + stake
        },
{
    fee_split_is_exact(reward, fee_bps);
}

/// Pays an approved claim out and closes quest and claim. Fails with
/// `Overflow`, leaving both untouched, exactly when the amounts do not fit.
pub(crate) fn settle_approval(fee_bps: u16, quest: &mut Quest, claim: &mut Claim) -> (outcome:
    Result<Effects<QuestCompleted>, QuestError>)
    ensures
        outcome is Ok <==> approval_amounts(
            old(quest).reward_amount,
            fee_bps,
            old(claim).stake_amount,
        ) is Some,
        outcome matches Ok(effects) ==> approved(
            fee_bps,
            *old(quest),
            *old(claim),
            *final(quest),
            *final(claim),
            effects.transfers@,
            effects.event,
        ),
        outcome matches Err(reason) ==> {
            &&& reason == QuestError::Overflow
            &&& *final(quest) == *old(quest)
            &&& *final(claim) == *old(claim)
        },
{
    let (fee_amount, reward_after_fee) = match compute_fee(quest.reward_amount, fee_bps) {
        Ok(parts) => parts,
        Err(reason) => {
            return Err(reason);
        },
    };
    let claimer_sum = match reward_after_fee.checked_add(claim.stake_amount) {
        Some(sum) => sum,
        None => {
            return Err(QuestError::Overflow);
        },
    };
    let mut transfers: Vec<Transfer> = Vec::new();
    transfers.push(pay(Party::Claimer, claimer_sum));
    if fee_amount > 0 {
        transfers.push(pay(Party::Treasury, fee_amount));
    }
    claim.status = ClaimStatus::Approved;
    quest.status = QuestStatus::Completed;
    let event = QuestCompleted {
        quest_id: quest.id,
        claimer: claim.claimer,
        reward_amount: reward_after_fee,
        fee_amount,
    };
    assert(transfers@ =~= approval_transfers(fee_amount, claimer_sum));
    Ok(Effects { transfers, event })
}

/// The arbiter approves a claim that is under review.
///
/// Refused, with nothing changed, as `approval_refusal` says. Otherwise the
/// escrow pays the claimer the net reward and the stake, pays the treasury the
/// fee unless it is zero, the claim becomes `Approved` and the quest
/// `Completed`.
pub fn approve_completion(
    config: &QuestConfig,
    quest: &mut Quest,
    claim: &mut Claim,
    authority: Pubkey,
) -> (outcome: Result<Effects<QuestCompleted>, QuestError>)
    ensures
        match outcome {
            Ok(effects) => {
                &&& approval_refusal(*config, *old(quest), *old(claim), authority) is None
                &&& approved(
                    config.fee_basis_points,
                    *old(quest),
                    *old(claim),
                    *final(quest),
                    *final(claim),
                    effects.transfers@,
                    effects.event,
                )
            },
            Err(reason) => {
                &&& approval_refusal(*config, *old(quest), *old(claim), authority) == Some(reason)
                &&& *final(quest) == *old(quest)
                &&& *final(claim) == *old(claim)
            },
        },
        old(quest).well_formed() ==> final(quest).well_formed(),
        old(claim).well_timed(*old(quest)) ==> final(claim).well_timed(*final(quest)),
{
    if claim.status != ClaimStatus::Submitted {
        return Err(QuestError::ClaimNotSubmitted);
    }
    if !same_key(&authority, &config.authority) {
        return Err(QuestError::NotOracle);
    }
    settle_approval(config.fee_basis_points, quest, claim)
}

/// The arbiter rejects a claim that is under review.
///
/// Refused, with nothing changed, as `rejection_refusal` says. Otherwise the
/// escrow pays as `rejection_transfers` says, the claim becomes `Rejected` and
/// the quest `Failed`.
pub fn reject_completion(
    config: &QuestConfig,
    quest: &mut Quest,
    claim: &mut Claim,
    authority: Pubkey,
    safety_flagged: bool,
) -> (outcome: Result<Effects<QuestFailed>, QuestError>)
    ensures
        match outcome {
            Ok(effects) => {
                &&& rejection_refusal(*config, *old(quest), *old(claim), authority, safety_flagged)
                    is None
                &&& *final(quest) == old(quest).moved_to(QuestStatus::Failed)
                &&& *final(claim) == old(claim).moved_to(ClaimStatus::Rejected)
                &&& effects.transfers@ == rejection_transfers(
                    old(quest).reward_amount,
                    old(claim).stake_amount,
                    safety_flagged,
                )
                &&& effects.event == (QuestFailed {
                    quest_id: old(quest).id,
                    claimer: old(claim).claimer,
                    reason: FailReason::Rejected,
                })
            },
            Err(reason) => {
                &&& rejection_refusal(*config, *old(quest), *old(claim), authority, safety_flagged)
                    == Some(reason)
                &&& *final(quest) == *old(quest)
                &&& *final(claim) == *old(claim)
            },
        },
        old(quest).well_formed() ==> final(quest).well_formed(),
        old(claim).well_timed(*old(quest)) ==> final(claim).well_timed(*final(quest)),
{
    if claim.status != ClaimStatus::Submitted {
        return Err(QuestError::ClaimNotSubmitted);
    }
    if !same_key(&authority, &config.authority) {
        return Err(QuestError::NotOracle);
    }
    let mut transfers: Vec<Transfer> = Vec::new();
    if safety_flagged {
        transfers.push(pay(Party::Creator, quest.reward_amount));
        if claim.stake_amount > 0 {
            transfers.push(pay(Party::Claimer, claim.stake_amount));
        }
    } else {
        let creator_sum = match quest.reward_amount.checked_add(claim.stake_amount) {
            Some(sum) => sum,
            None => {
                return Err(QuestError::Overflow);
            },
        };
        transfers.push(pay(Party::Creator, creator_sum));
    }
    claim.status = ClaimStatus::Rejected;
    quest.status = QuestStatus::Failed;
    let event = QuestFailed {
        quest_id: quest.id,
        claimer: claim.claimer,
        reason: FailReason::Rejected,
    };
    assert(transfers@ =~= rejection_transfers(
        old(quest).reward_amount,
        old(claim).stake_amount,
        safety_flagged,
    ));
    Ok(Effects { transfers, event })
}

} // verus!
