//! An escrow protocol for quests: a creator locks a reward for a task, claimers
//! stake on it and commit to a proof, and the arbiter, or after a deadline
//! anyone, settles the claim. Every operation is a function from the stored
//! records, the caller and the time to the new records, the transfers to carry
//! out and the event to record; it is total, and a refused operation changes
//! nothing.

pub mod amounts;
pub mod arbitration;
pub mod claims;
pub mod config;
pub mod conservation;
pub mod crank;
pub mod error;
pub mod events;
pub mod finality;
pub mod keys;
pub mod ledger;
pub mod quests;
pub mod state;

pub use crate::amounts::{
    compute_fee, deadline_after, min_stake, BPS_DENOMINATOR, MIN_REWARD, MIN_STAKE_BPS,
    SECONDS_PER_HOUR,
};
pub use crate::arbitration::{approve_completion, reject_completion};
pub use crate::claims::{abandon_claim, claim_quest, submit_proof};
pub use crate::config::initialize;
pub use crate::crank::{auto_approve, expire_claim};
pub use crate::error::{ErrorKind, QuestError};
pub use crate::events::{
    ClaimAbandoned, ClaimExpired, FailReason, ProofSubmitted, ProtocolInitialized, QuestCancelled,
    QuestClaimed, QuestCompleted, QuestCreated, QuestFailed,
};
pub use crate::ledger::{Effects, Party, Transfer};
pub use crate::quests::{cancel_quest, create_quest};
pub use crate::state::{
    Claim, ClaimStatus, Quest, QuestConfig, QuestStatus, QuestType, DEFAULT_PROOF_DEADLINE_HOURS,
    DEFAULT_REVIEW_DEADLINE_HOURS, MAX_CLAIMERS,
};
