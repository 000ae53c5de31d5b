use crate::amounts::{deadline_after, deadline_from, min_stake, stake_floor, window_seconds};
use crate::error::QuestError;
use crate::events::{ClaimAbandoned, ProofSubmitted, QuestClaimed};
use crate::keys::{names_key, same_key};
use crate::ledger::{deposit, pay, payout, Effects, Party, Transfer};
use crate::state::{Claim, ClaimStatus, Quest, QuestStatus, QuestType};
use anchor_lang::prelude::Pubkey;
use vstd::prelude::*;

verus! {

/// Why a claim on `quest` by `claimer` at the moment `now` is refused, if it
/// is. The checks come in this order: the quest is active; a slot is free; the
/// claimer is not the creator; a direct quest is claimed by its target; the
/// expiry, if there is one, lies ahead; the stake reaches five percent of the
/// reward; the proof deadline fits in `i64`.
pub open spec fn claim_refusal(quest: Quest, claimer: Pubkey, stake_amount: u64, now: i64) -> Option<
    QuestError,
> {
    if quest.status != QuestStatus::Active {
        Some(QuestError::QuestNotActive)
    } else if quest.current_claimers >= quest.max_claimers {
        Some(QuestError::QuestFull)
    } else if quest.creator == claimer {
        Some(QuestError::CannotClaimOwnQuest)
    } else if quest.quest_type == QuestType::Direct && quest.target != Some(claimer) {
        Some(QuestError::NotTargetUser)
    } else if quest.time_limit is Some && now >= quest.time_limit->0 {
        Some(QuestError::QuestExpired)
    } else if stake_floor(quest.reward_amount) is None {
        Some(QuestError::Overflow)
    } else if stake_amount < stake_floor(quest.reward_amount)->0 {
        Some(QuestError::StakeTooLow)
    } else if deadline_from(now, quest.proof_deadline_hours) is None {
        Some(QuestError::Overflow)
    } else {
        None
    }
}

/// The claim that a successful `claim_quest` opens.
pub open spec fn opened_claim(
    quest: Quest,
    quest_key: Pubkey,
    claimer: Pubkey,
    stake_amount: u64,
    now: i64,
    bump: u8,
) -> Claim {
    Claim {
        quest: quest_key,
        claimer,
        stake_amount,
        status: ClaimStatus::Active,
        proof_deadline: (now + window_seconds(quest.proof_deadline_hours)) as i64,
        review_deadline: None,
        proof_hash: None,
        claimed_at: now,
        submitted_at: None,
        bump,
    }
}

/// Why a proof for `claim` from `claimer` at the moment `now` is refused, if
/// it is: the claim is not active, the caller is not its claimer, the proof
/// deadline has passed, or the review deadline leaves `i64`, in this order.
pub open spec fn proof_refusal(quest: Quest, claim: Claim, claimer: Pubkey, now: i64) -> Option<
    QuestError,
> {
    if claim.status != ClaimStatus::Active {
        Some(QuestError::ClaimNotActive)
    } else if claim.claimer != claimer {
        Some(QuestError::NotClaimer)
    } else if now > claim.proof_deadline {
        Some(QuestError::ProofDeadlinePassed)
    } else if deadline_from(now, quest.review_deadline_hours) is None {
        Some(QuestError::Overflow)
    } else {
        None
    }
}

/// The claim once its proof is in: under review, with the commitment, the
/// time of submission and the review deadline recorded.
pub open spec fn submitted_claim(quest: Quest, claim: Claim, proof_hash: [u8; 32], now: i64) -> Claim {
    Claim {
        proof_hash: Some(proof_hash),
        status: ClaimStatus::Submitted,
        submitted_at: Some(now),
        review_deadline: Some((now + window_seconds(quest.review_deadline_hours)) as i64),
        ..claim
    }
}

/// Why `claimer` cannot abandon `claim`, if so: the claim is not active, or
/// the caller is not its claimer, in this order.
pub open spec fn abandon_refusal(claim: Claim, claimer: Pubkey) -> Option<QuestError> {
    if claim.status != ClaimStatus::Active {
        Some(QuestError::ClaimNotActive)
    } else if claim.claimer != claimer {
        Some(QuestError::NotClaimer)
    } else {
        None
    }
}

/// The transfers that forfeit a stake: one payout to the creator, or none
/// where the stake is zero.
pub open spec fn forfeit_transfers(stake: u64) -> Seq<Transfer> {
    if stake > 0 {
        seq![payout(Party::Creator, stake)]
    } else {
        Seq::empty()
    }
}

/// What the release of a claim as `closed` (abandoned or expired) makes of a
/// quest and a claim: the claim gets that status, the quest loses a claimer,
/// and the stake is forfeited to the creator.
pub open spec fn released(
    closed: ClaimStatus,
    quest: Quest,
    claim: Claim,
    quest_after: Quest,
    claim_after: Claim,
    transfers: Seq<Transfer>,
) -> bool {
    &&& quest_after == quest.with_claimer_removed()
    &&& claim_after == claim.moved_to(closed)
    &&& transfers == forfeit_transfers(claim.stake_amount)
}

/// A well-formed quest is never refused as full: once its last slot is
/// taken it is `Claimed`, and a claim on it is refused as not active.
pub proof fn full_quests_are_claimed(quest: Quest, claimer: Pubkey, stake_amount: u64, now: i64)
    requires
        quest.well_formed(),
    ensures
        claim_refusal(quest, claimer, stake_amount, now) != Some(QuestError::QuestFull),
        quest.current_claimers == quest.max_claimers ==> claim_refusal(
            quest,
            claimer,
            stake_amount,
            now,
        ) == Some(QuestError::QuestNotActive),
{
}

/// An abandonment and an expiry deal with stake and quest in the same way:
/// what `released` admits differs in the status of the claim alone.
pub proof fn release_is_determined(
    quest: Quest,
    claim: Claim,
    abandoned: (Quest, Claim, Seq<Transfer>),
    expired: (Quest, Claim, Seq<Transfer>),
)
    requires
        released(ClaimStatus::Abandoned, quest, claim, abandoned.0, abandoned.1, abandoned.2),
        released(ClaimStatus::Expired, quest, claim, expired.0, expired.1, expired.2),
    ensures
        abandoned.0 == expired.0,
        abandoned.2 == expired.2,
        abandoned.1.moved_to(ClaimStatus::Expired) == expired.1,
{
}

/// Closes `claim` as `closed`, frees its slot in `quest` and forfeits the
/// stake to the creator.
pub(crate) fn release_claim(quest: &mut Quest, claim: &mut Claim, closed: ClaimStatus) -> (transfers:
    Vec<Transfer>)
    ensures
        released(closed, *old(quest), *old(claim), *final(quest), *final(claim), transfers@),
{
    let mut transfers: Vec<Transfer> = Vec::new();
    if claim.stake_amount > 0 {
        transfers.push(pay(Party::Creator, claim.stake_amount));
    }
    claim.status = closed;
    quest.current_claimers = quest.current_claimers.saturating_sub(1);
    if quest.status == QuestStatus::Claimed {
        quest.status = QuestStatus::Active;
    }
    assert(transfers@ =~= forfeit_transfers(old(claim).stake_amount));
    transfers
}

/// A claimer stakes on a quest.
///
/// Refused, with the quest unchanged, as `claim_refusal` says. Otherwise
/// returns the new active claim, whose proof deadline lies the quest's proof
/// window after `now`; the claimer deposits the stake into the escrow; the
/// quest counts one claimer more and is `Claimed` once the limit is reached.
pub fn claim_quest(
    quest: &mut Quest,
    quest_key: Pubkey,
    claimer: Pubkey,
    stake_amount: u64,
    now: i64,
    bump: u8,
) -> (outcome: Result<(Claim, Effects<QuestClaimed>), QuestError>)
    ensures
        match outcome {
            Ok((claim, effects)) => {
                &&& claim_refusal(*old(quest), claimer, stake_amount, now) is None
                &&& claim == opened_claim(*old(quest), quest_key, claimer, stake_amount, now, bump)
                &&& *final(quest) == old(quest).with_claimer_added()
                &&& effects.transfers@ == seq![deposit(Party::Claimer, stake_amount)]
                &&& effects.event == (QuestClaimed {
                    quest_id: old(quest).id,
                    claimer,
                    stake_amount,
                })
                &&& claim.well_timed(*final(quest))
            },
            Err(reason) => {
                &&& claim_refusal(*old(quest), claimer, stake_amount, now) == Some(reason)
                &&& *final(quest) == *old(quest)
            },
        },
        old(quest).well_formed() ==> final(quest).well_formed(),
{
    if quest.status != QuestStatus::Active {
        return Err(QuestError::QuestNotActive);
    }
    if quest.current_claimers >= quest.max_claimers {
        return Err(QuestError::QuestFull);
    }
    if same_key(&quest.creator, &claimer) {
        return Err(QuestError::CannotClaimOwnQuest);
    }
    if quest.quest_type == QuestType::Direct && !names_key(&quest.target, &claimer) {
        return Err(QuestError::NotTargetUser);
    }
    if let Some(limit) = quest.time_limit {
        if now >= limit {
            return Err(QuestError::QuestExpired);
        }
    }
    let least = match min_stake(quest.reward_amount) {
        Ok(least) => least,
        Err(reason) => {
            return Err(reason);
        },
    };
    if stake_amount < least {
        return Err(QuestError::StakeTooLow);
    }
    let proof_deadline = match deadline_after(now, quest.proof_deadline_hours) {
        Ok(at) => at,
        Err(reason) => {
            return Err(reason);
        },
    };
    let claimers = match quest.current_claimers.checked_add(1) {
        Some(count) => count,
        None => {
            return Err(QuestError::Overflow);
        },
    };
    let claim = Claim {
        quest: quest_key,
        claimer,
        stake_amount,
        status: ClaimStatus::Active,
        proof_deadline,
        review_deadline: None,
        proof_hash: None,
        claimed_at: now,
        submitted_at: None,
        bump,
    };
    quest.current_claimers = claimers;
    if quest.current_claimers >= quest.max_claimers {
        quest.status = QuestStatus::Claimed;
    }
    let mut transfers: Vec<Transfer> = Vec::new();
    transfers.push(Transfer { from: Party::Claimer, to: Party::Escrow, amount: stake_amount });
    let event = QuestClaimed { quest_id: quest.id, claimer, stake_amount };
    assert(transfers@ =~= seq![deposit(Party::Claimer, stake_amount)]);
    Ok((claim, Effects { transfers, event }))
}

/// The claimer commits to a proof.
///
/// Refused, with the claim unchanged, as `proof_refusal` says: above all, a
/// proof is accepted up to the proof deadline and not after. Otherwise the
/// claim is under review, `now` is recorded as the time of submission, and the
/// review deadline lies the quest's review window after it. No value moves.
pub fn submit_proof(
    quest: &Quest,
    claim: &mut Claim,
    claimer: Pubkey,
    proof_hash: [u8; 32],
    now: i64,
) -> (outcome: Result<Effects<ProofSubmitted>, QuestError>)
    ensures
        match outcome {
            Ok(effects) => {
                &&& proof_refusal(*quest, *old(claim), claimer, now) is None
                &&& *final(claim) == submitted_claim(*quest, *old(claim), proof_hash, now)
                &&& effects.transfers@ == Seq::<Transfer>::empty()
                &&& effects.event == (ProofSubmitted {
                    quest_id: quest.id,
                    claimer: old(claim).claimer,
                    proof_hash,
                })
            },
            Err(reason) => {
                &&& proof_refusal(*quest, *old(claim), claimer, now) == Some(reason)
                &&& *final(claim) == *old(claim)
            },
        },
        old(claim).well_timed(*quest) ==> final(claim).well_timed(*quest),
{
    if claim.status != ClaimStatus::Active {
        return Err(QuestError::ClaimNotActive);
    }
    if !same_key(&claim.claimer, &claimer) {
        return Err(QuestError::NotClaimer);
    }
    if now > claim.proof_deadline {
        return Err(QuestError::ProofDeadlinePassed);
    }
    let review_deadline = match deadline_after(now, quest.review_deadline_hours) {
        Ok(at) => at,
        Err(reason) => {
            return Err(reason);
        },
    };
    claim.proof_hash = Some(proof_hash);
    claim.status = ClaimStatus::Submitted;
    claim.submitted_at = Some(now);
    claim.review_deadline = Some(review_deadline);
    let event = ProofSubmitted { quest_id: quest.id, claimer: claim.claimer, proof_hash };
    Ok(Effects { transfers: Vec::new(), event })
}

/// The claimer gives an active claim up.
///
/// Refused, with nothing changed, as `abandon_refusal` says. Otherwise the
/// whole stake goes to the creator (no transfer for a stake of zero), the
/// claim becomes `Abandoned`, the quest counts one claimer fewer, never under
/// zero, and a `Claimed` quest is `Active` again.
pub fn abandon_claim(quest: &mut Quest, claim: &mut Claim, claimer: Pubkey) -> (outcome: Result<
    Effects<ClaimAbandoned>,
    QuestError,
>)
    ensures
        match outcome {
            Ok(effects) => {
                &&& abandon_refusal(*old(claim), claimer) is None
                &&& released(
                    ClaimStatus::Abandoned,
                    *old(quest),
                    *old(claim),
                    *final(quest),
                    *final(claim),
                    effects.transfers@,
                )
                &&& effects.event == (ClaimAbandoned {
                    quest_id: old(quest).id,
                    claimer: old(claim).claimer,
                })
            },
            Err(reason) => {
                &&& abandon_refusal(*old(claim), claimer) == Some(reason)
                &&& *final(quest) == *old(quest)
                &&& *final(claim) == *old(claim)
            },
        },
        old(quest).well_formed() ==> final(quest).well_formed(),
        old(claim).well_timed(*old(quest)) ==> final(claim).well_timed(*final(quest)),
{
    if claim.status != ClaimStatus::Active {
        return Err(QuestError::ClaimNotActive);
    }
    if !same_key(&claim.claimer, &claimer) {
        return Err(QuestError::NotClaimer);
    }
    let transfers = release_claim(quest, claim, ClaimStatus::Abandoned);
    let event = ClaimAbandoned { quest_id: quest.id, claimer: claim.claimer };
    Ok(Effects { transfers, event })
}

} // verus!
