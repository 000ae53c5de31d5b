use crate::state::QuestType;
use anchor_lang::prelude::Pubkey;
use vstd::prelude::*;

verus! {

/// Why a quest failed.
#[derive(Clone, Copy, Debug, PartialEq, Eq, Structural)]
pub enum FailReason {
    /// The arbiter rejected the proof.
    Rejected,
    /// No proof came in time.
    Expired,
    /// The claimer gave up.
    Abandoned,
}

/// The protocol was set up.
#[derive(Clone, Copy, Debug, PartialEq, Eq)]
pub struct ProtocolInitialized {
    pub authority: Pubkey,
    pub treasury: Pubkey,
    pub fee_basis_points: u16,
}

/// A quest was created and its reward escrowed.
#[derive(Clone, Copy, Debug, PartialEq, Eq)]
pub struct QuestCreated {
    pub quest_id: u64,
    pub creator: Pubkey,
    pub reward_amount: u64,
    pub reward_mint: Pubkey,
    pub quest_type: QuestType,
}

/// A claimer staked on a quest.
#[derive(Clone, Copy, Debug, PartialEq, Eq)]
pub struct QuestClaimed {
    pub quest_id: u64,
    pub claimer: Pubkey,
    pub stake_amount: u64,
}

/// A claimer committed to a proof.
#[derive(Clone, Copy, Debug, PartialEq, Eq)]
pub struct ProofSubmitted {
    pub quest_id: u64,
    pub claimer: Pubkey,
    pub proof_hash: [u8; 32],
}

/// A claim was approved: the net reward went to the claimer, the fee to the
/// treasury.
#[derive(Clone, Copy, Debug, PartialEq, Eq)]
pub struct QuestCompleted {
    pub quest_id: u64,
    pub claimer: Pubkey,
    pub reward_amount: u64,
    pub fee_amount: u64,
}

/// A claim was rejected and the quest failed.
#[derive(Clone, Copy, Debug, PartialEq, Eq)]
pub struct QuestFailed {
    pub quest_id: u64,
    pub claimer: Pubkey,
    pub reason: FailReason,
}

/// The creator withdrew a quest that nobody held.
#[derive(Clone, Copy, Debug, PartialEq, Eq)]
pub struct QuestCancelled {
    pub quest_id: u64,
    pub creator: Pubkey,
}

/// A claimer gave a claim up and forfeited the stake.
#[derive(Clone, Copy, Debug, PartialEq, Eq)]
pub struct ClaimAbandoned {
    pub quest_id: u64,
    pub claimer: Pubkey,
}

/// A claim ran out of time without a proof.
#[derive(Clone, Copy, Debug, PartialEq, Eq)]
pub struct ClaimExpired {
    pub quest_id: u64,
    pub claimer: Pubkey,
}

} // verus!
