use crate::arbitration::{approval_refusal, rejection_refusal};
use crate::claims::{abandon_refusal, claim_refusal, proof_refusal};
use crate::conservation::{without_live_claims_all_are_final, Book};
use crate::crank::{auto_approval_refusal, expiry_refusal};
use crate::error::{ErrorKind, QuestError};
use crate::quests::cancel_refusal;
use crate::state::{Claim, ClaimStatus, Quest, QuestConfig, QuestStatus};
use anchor_lang::prelude::Pubkey;
use vstd::prelude::*;

verus! {

/// A claim that is approved, rejected, abandoned or expired is final: every
/// operation on it is refused for its status, whoever calls and whenever,
/// and so changes nothing.
pub proof fn terminal_claim_is_final(
    config: QuestConfig,
    quest: Quest,
    claim: Claim,
    caller: Pubkey,
    now: i64,
    safety_flagged: bool,
)
    requires
        claim.is_terminal(),
    ensures
        proof_refusal(quest, claim, caller, now) == Some(QuestError::ClaimNotActive),
        abandon_refusal(claim, caller) == Some(QuestError::ClaimNotActive),
        expiry_refusal(claim, now) == Some(QuestError::ClaimNotActive),
        approval_refusal(config, quest, claim, caller) == Some(QuestError::ClaimNotSubmitted),
        rejection_refusal(config, quest, claim, caller, safety_flagged) == Some(
            QuestError::ClaimNotSubmitted,
        ),
        auto_approval_refusal(config, quest, claim, now) == Some(QuestError::ClaimNotSubmitted),
        QuestError::ClaimNotActive.kind_of() == ErrorKind::StateConflict,
        QuestError::ClaimNotSubmitted.kind_of() == ErrorKind::StateConflict,
{
}

/// A quest that is completed, failed or cancelled takes no new claim and
/// cannot be cancelled: both are refused for its status, whoever calls and
/// whenever, and so change nothing.
pub proof fn terminal_quest_is_closed(quest: Quest, caller: Pubkey, stake_amount: u64, now: i64)
    requires
        quest.is_terminal(),
    ensures
        claim_refusal(quest, caller, stake_amount, now) == Some(QuestError::QuestNotActive),
        cancel_refusal(quest, caller) == Some(QuestError::QuestNotActive),
        QuestError::QuestNotActive.kind_of() == ErrorKind::StateConflict,
{
}

/// Once a quest for a single claimer is final, nothing can touch it again:
/// where its books are in order, every claim on it is final too, so that
/// every operation on the quest, with any of its claims, is refused for a
/// status, whoever calls and whenever.
pub proof fn final_single_claimer_quest_is_untouchable(
    book: Book,
    at: int,
    config: QuestConfig,
    caller: Pubkey,
    stake_amount: u64,
    now: i64,
    safety_flagged: bool,
)
    requires
        book.in_order(),
        book.quest.is_terminal(),
        book.quest.max_claimers == 1,
        0 <= at < book.claims.len(),
    ensures
        book.claims[at].is_terminal(),
        claim_refusal(book.quest, caller, stake_amount, now) == Some(QuestError::QuestNotActive),
        cancel_refusal(book.quest, caller) == Some(QuestError::QuestNotActive),
        abandon_refusal(book.claims[at], caller) == Some(QuestError::ClaimNotActive),
        expiry_refusal(book.claims[at], now) == Some(QuestError::ClaimNotActive),
        approval_refusal(config, book.quest, book.claims[at], caller) == Some(
            QuestError::ClaimNotSubmitted,
        ),
        rejection_refusal(config, book.quest, book.claims[at], caller, safety_flagged) == Some(
            QuestError::ClaimNotSubmitted,
        ),
        auto_approval_refusal(config, book.quest, book.claims[at], now) == Some(
            QuestError::ClaimNotSubmitted,
        ),
        proof_refusal(book.quest, book.claims[at], caller, now) == Some(
            QuestError::ClaimNotActive,
        ),
{
    without_live_claims_all_are_final(book.claims, at);
}

/// No move leads out of the final statuses: a final quest stays final when
/// a claim on it is released, and the three closing moves all end in one.
pub proof fn terminal_quest_stays_terminal(quest: Quest)
    ensures
        quest.is_terminal() ==> quest.with_claimer_removed().is_terminal()
            && quest.with_claimer_removed().status == quest.status,
        quest.moved_to(QuestStatus::Completed).is_terminal(),
        quest.moved_to(QuestStatus::Failed).is_terminal(),
        quest.moved_to(QuestStatus::Cancelled).is_terminal(),
{
}

/// Every move of a claim but the submission of a proof ends in a final
/// status.
pub proof fn closing_moves_end_claims(claim: Claim)
    ensures
        claim.moved_to(ClaimStatus::Approved).is_terminal(),
        claim.moved_to(ClaimStatus::Rejected).is_terminal(),
        claim.moved_to(ClaimStatus::Abandoned).is_terminal(),
        claim.moved_to(ClaimStatus::Expired).is_terminal(),
{
}

} // verus!
