use crate::amounts::MIN_REWARD;
use crate::error::QuestError;
use crate::events::{QuestCancelled, QuestCreated};
use crate::keys::same_key;
use crate::ledger::{deposit, pay, payout, Effects, Party, Transfer};
use crate::state::{
    Quest, QuestConfig, QuestStatus, QuestType, DEFAULT_PROOF_DEADLINE_HOURS,
    DEFAULT_REVIEW_DEADLINE_HOURS, MAX_CLAIMERS,
};
use anchor_lang::prelude::Pubkey;
use vstd::prelude::*;

verus! {

/// Why a quest with these terms cannot be created at the moment `now`, if so.
/// The checks come in this order: the reward reaches the floor; the claimer
/// limit is between one and one hundred; a direct quest names a target, and
/// one other than its creator; the expiry, if there is one, lies strictly
/// ahead; the quest counter can still grow.
pub open spec fn creation_refusal(
    config: QuestConfig,
    creator: Pubkey,
    reward_amount: u64,
    quest_type: QuestType,
    target: Option<Pubkey>,
    max_claimers: u8,
    time_limit: Option<i64>,
    now: i64,
) -> Option<QuestError> {
    if reward_amount < MIN_REWARD {
        Some(QuestError::RewardTooLow)
    } else if max_claimers == 0 || max_claimers > MAX_CLAIMERS {
        Some(QuestError::InvalidMaxClaimers)
    } else if quest_type == QuestType::Direct && target is None {
        Some(QuestError::DirectQuestNeedsTarget)
    } else if quest_type == QuestType::Direct && target == Some(creator) {
        Some(QuestError::CannotTargetSelf)
    } else if time_limit is Some && time_limit->0 <= now {
        Some(QuestError::InvalidTimeLimit)
    } else if config.quest_count == u64::MAX {
        Some(QuestError::Overflow)
    } else {
        None
    }
}

/// The quest that a successful `create_quest` opens: active, without
/// claimers, numbered by the counter, with the default windows.
pub open spec fn opened_quest(
    config: QuestConfig,
    creator: Pubkey,
    escrow: Pubkey,
    reward_mint: Pubkey,
    reward_amount: u64,
    quest_type: QuestType,
    target: Option<Pubkey>,
    max_claimers: u8,
    time_limit: Option<i64>,
    description_hash: [u8; 32],
    now: i64,
    bump: u8,
) -> Quest {
    Quest {
        id: config.quest_count,
        creator,
        escrow,
        reward_mint,
        reward_amount,
        quest_type,
        status: QuestStatus::Active,
        target,
        max_claimers,
        current_claimers: 0,
        time_limit,
        proof_deadline_hours: DEFAULT_PROOF_DEADLINE_HOURS,
        review_deadline_hours: DEFAULT_REVIEW_DEADLINE_HOURS,
        description_hash,
        created_at: now,
        bump,
    }
}

/// Why `creator` cannot cancel `quest`, if so: the quest is not active, it
/// has claimers, or the caller is not its creator, in this order.
pub open spec fn cancel_refusal(quest: Quest, creator: Pubkey) -> Option<QuestError> {
    if quest.status != QuestStatus::Active {
        Some(QuestError::QuestNotActive)
    } else if quest.current_claimers != 0 {
        Some(QuestError::QuestAlreadyClaimed)
    } else if quest.creator != creator {
        Some(QuestError::NotCreator)
    } else {
        None
    }
}

/// A creator posts a quest and escrows its reward.
///
/// Refused, with the configuration unchanged, as `creation_refusal` says.
/// Otherwise returns the new quest, which takes the counter as its id; the
/// counter grows by one; the creator deposits the reward into the escrow.
pub fn create_quest(
    config: &mut QuestConfig,
    creator: Pubkey,
    escrow: Pubkey,
    reward_mint: Pubkey,
    reward_amount: u64,
    quest_type: QuestType,
    target: Option<Pubkey>,
    max_claimers: u8,
    time_limit: Option<i64>,
    description_hash: [u8; 32],
    now: i64,
    bump: u8,
) -> (outcome: Result<(Quest, Effects<QuestCreated>), QuestError>)
    ensures
        match outcome {
            Ok((quest, effects)) => {
                &&& creation_refusal(
                    *old(config),
                    creator,
                    reward_amount,
                    quest_type,
                    target,
                    max_claimers,
                    time_limit,
                    now,
                ) is None
                &&& quest == opened_quest(
                    *old(config),
                    creator,
                    escrow,
                    reward_mint,
                    reward_amount,
                    quest_type,
                    target,
                    max_claimers,
                    time_limit,
                    description_hash,
                    now,
                    bump,
                )
                &&& *final(config) == (QuestConfig {
                    quest_count: (old(config).quest_count + 1) as u64,
                    ..*old(config)
                })
                &&& effects.transfers@ == seq![deposit(Party::Creator, reward_amount)]
                &&& effects.event == (QuestCreated {
                    quest_id: old(config).quest_count,
                    creator,
                    reward_amount,
                    reward_mint,
                    quest_type,
                })
                &&& quest.well_formed()
            },
            Err(reason) => {
                &&& creation_refusal(
                    *old(config),
                    creator,
                    reward_amount,
                    quest_type,
                    target,
                    max_claimers,
                    time_limit,
                    now,
                ) == Some(reason)
                &&& *final(config) == *old(config)
            },
        },
{
    if reward_amount < MIN_REWARD {
        return Err(QuestError::RewardTooLow);
    }
    if max_claimers == 0 || max_claimers > MAX_CLAIMERS {
        return Err(QuestError::InvalidMaxClaimers);
    }
    if quest_type == QuestType::Direct {
        match target {
            Some(named) => {
                if same_key(&named, &creator) {
                    return Err(QuestError::CannotTargetSelf);
                }
            },
            None => {
                return Err(QuestError::DirectQuestNeedsTarget);
            },
        }
    }
    if let Some(limit) = time_limit {
        if limit <= now {
            return Err(QuestError::InvalidTimeLimit);
        }
    }
    let next_count = match config.quest_count.checked_add(1) {
        Some(count) => count,
        None => {
            return Err(QuestError::Overflow);
        },
    };
    let quest = Quest {
        id: config.quest_count,
        creator,
        escrow,
        reward_mint,
        reward_amount,
        quest_type,
        status: QuestStatus::Active,
        target,
        max_claimers,
        current_claimers: 0,
        time_limit,
        proof_deadline_hours: DEFAULT_PROOF_DEADLINE_HOURS,
        review_deadline_hours: DEFAULT_REVIEW_DEADLINE_HOURS,
        description_hash,
        created_at: now,
        bump,
    };
    config.quest_count = next_count;
    let mut transfers: Vec<Transfer> = Vec::new();
    transfers.push(Transfer { from: Party::Creator, to: Party::Escrow, amount: reward_amount });
    let event = QuestCreated {
        quest_id: quest.id,
        creator,
        reward_amount,
        reward_mint,
        quest_type,
    };
    assert(transfers@ =~= seq![deposit(Party::Creator, reward_amount)]);
    Ok((quest, Effects { transfers, event }))
}

/// The creator withdraws a quest that nobody holds.
///
/// Refused, with the quest unchanged, as `cancel_refusal` says. Otherwise the
/// escrow pays the whole reward back to the creator and the quest becomes
/// `Cancelled`.
pub fn cancel_quest(quest: &mut Quest, creator: Pubkey) -> (outcome: Result<
    Effects<QuestCancelled>,
    QuestError,
>)
    ensures
        match outcome {
            Ok(effects) => {
                &&& cancel_refusal(*old(quest), creator) is None
                &&& *final(quest) == old(quest).moved_to(QuestStatus::Cancelled)
                &&& effects.transfers@ == seq![payout(Party::Creator, old(quest).reward_amount)]
                &&& effects.event == (QuestCancelled {
                    quest_id: old(quest).id,
                    creator: old(quest).creator,
                })
            },
            Err(reason) => {
                &&& cancel_refusal(*old(quest), creator) == Some(reason)
                &&& *final(quest) == *old(quest)
            },
        },
        old(quest).well_formed() ==> final(quest).well_formed(),
{
    if quest.status != QuestStatus::Active {
        return Err(QuestError::QuestNotActive);
    }
    if quest.current_claimers != 0 {
        return Err(QuestError::QuestAlreadyClaimed);
    }
    if !same_key(&quest.creator, &creator) {
        return Err(QuestError::NotCreator);
    }
    let mut transfers: Vec<Transfer> = Vec::new();
    transfers.push(pay(Party::Creator, quest.reward_amount));
    quest.status = QuestStatus::Cancelled;
    let event = QuestCancelled { quest_id: quest.id, creator: quest.creator };
    assert(transfers@ =~= seq![payout(Party::Creator, old(quest).reward_amount)]);
    Ok(Effects { transfers, event })
}

} // verus!
