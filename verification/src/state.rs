use crate::amounts::{window_seconds, BPS_DENOMINATOR, MIN_REWARD};
use anchor_lang::prelude::Pubkey;
use vstd::prelude::*;

verus! {

/// The largest number of claimers that a quest may admit at once.
pub const MAX_CLAIMERS: u8 = 100;

/// Hours that a claimer has for the proof, unless a quest says otherwise.
pub const DEFAULT_PROOF_DEADLINE_HOURS: u8 = 24;

/// Hours that the arbiter has for the review, unless a quest says otherwise.
pub const DEFAULT_REVIEW_DEADLINE_HOURS: u8 = 24;

/// Whom a quest is for.
#[derive(Clone, Copy, Debug, PartialEq, Eq, Structural)]
pub enum QuestType {
    /// One named claimer only.
    Direct,
    /// Any claimer but the creator.
    Open,
}

/// Where a quest stands in its life.
#[derive(Clone, Copy, Debug, PartialEq, Eq, Structural)]
pub enum QuestStatus {
    /// Open for claims.
    Active,
    /// Every claim slot is taken.
    Claimed,
    /// A claim was approved and paid.
    Completed,
    /// A claim was rejected and the reward went back.
    Failed,
    /// The creator withdrew the quest.
    Cancelled,
    /// Reserved; no operation sets it.
    Expired,
}

/// Where a claim stands in its life.
#[derive(Clone, Copy, Debug, PartialEq, Eq, Structural)]
pub enum ClaimStatus {
    /// Staked; the proof is awaited.
    Active,
    /// The proof is in; the review is awaited.
    Submitted,
    /// Approved and paid.
    Approved,
    /// Rejected by the arbiter.
    Rejected,
    /// Given up by the claimer.
    Abandoned,
    /// Timed out without a proof.
    Expired,
}

/// The protocol-wide configuration, one for the whole protocol.
#[derive(Clone, Copy, Debug, PartialEq, Eq)]
pub struct QuestConfig {
    /// The arbiter: the only party that may approve or reject.
    pub authority: Pubkey,
    /// Where fees go.
    pub treasury: Pubkey,
    /// The fee on an approved reward, in basis points.
    pub fee_basis_points: u16,
    /// The burn rate, in basis points.
    pub burn_basis_points: u16,
    /// The id that the next quest gets.
    pub quest_count: u64,
    /// The address seed of the stored record.
    pub bump: u8,
}

/// A posted task with its escrowed reward.
#[derive(Clone, Copy, Debug, PartialEq, Eq)]
pub struct Quest {
    /// The sequential id.
    pub id: u64,
    /// Who posted the quest and funded the reward.
    pub creator: Pubkey,
    /// The account that holds reward and stakes.
    pub escrow: Pubkey,
    /// The denomination of reward and stakes.
    pub reward_mint: Pubkey,
    /// The reward, fixed at creation.
    pub reward_amount: u64,
    /// Whom the quest is for.
    pub quest_type: QuestType,
    /// Where the quest stands.
    pub status: QuestStatus,
    /// The one admissible claimer of a direct quest.
    pub target: Option<Pubkey>,
    /// How many claimers may hold the quest at once.
    pub max_claimers: u8,
    /// How many claimers hold it now.
    pub current_claimers: u8,
    /// The moment from which no new claim is accepted.
    pub time_limit: Option<i64>,
    /// Hours from claim to proof deadline.
    pub proof_deadline_hours: u8,
    /// Hours from proof to review deadline.
    pub review_deadline_hours: u8,
    /// A commitment to the task's description.
    pub description_hash: [u8; 32],
    /// When the quest was created.
    pub created_at: i64,
    /// The address seed of the stored record.
    pub bump: u8,
}

/// One claimer's attempt at a quest, with the stake behind it.
#[derive(Clone, Copy, Debug, PartialEq, Eq)]
pub struct Claim {
    /// The address of the quest that is claimed.
    pub quest: Pubkey,
    /// Who claims.
    pub claimer: Pubkey,
    /// The stake, fixed at claim time.
    pub stake_amount: u64,
    /// Where the claim stands.
    pub status: ClaimStatus,
    /// The last moment at which a proof is accepted.
    pub proof_deadline: i64,
    /// The moment after which anyone may approve; set with the proof.
    pub review_deadline: Option<i64>,
    /// A commitment to the proof.
    pub proof_hash: Option<[u8; 32]>,
    /// When the claim was made.
    pub claimed_at: i64,
    /// When the proof came in.
    pub submitted_at: Option<i64>,
    /// The address seed of the stored record.
    pub bump: u8,
}

impl QuestStatus {
    /// Completed, failed and cancelled quests are final.
    pub open spec fn is_terminal(self) -> bool {
        self is Completed || self is Failed || self is Cancelled
    }
}

impl ClaimStatus {
    /// A live claim has its stake in escrow: it is active or under review.
    pub open spec fn is_live(self) -> bool {
        self is Active || self is Submitted
    }

    /// Approved, rejected, abandoned and expired claims are final.
    pub open spec fn is_terminal(self) -> bool {
        !self.is_live()
    }
}

impl QuestConfig {
    /// Both rates are at most one hundred percent.
    pub open spec fn well_formed(self) -> bool {
        self.fee_basis_points <= BPS_DENOMINATOR && self.burn_basis_points <= BPS_DENOMINATOR
    }
}

impl Quest {
    /// Whether the quest has reached a final status.
    pub open spec fn is_terminal(self) -> bool {
        self.status.is_terminal()
    }

    /// What creation checks and every operation keeps: the reward is at least
    /// the floor, the claimer limit is between one and one hundred, a direct
    /// quest names a target other than its creator, the claimers never
    /// outnumber the limit, and a quest that is not final is `Claimed` exactly
    /// when they have reached it.
    pub open spec fn well_formed(self) -> bool {
        &&& self.reward_amount >= MIN_REWARD
        &&& 1 <= self.max_claimers <= MAX_CLAIMERS
        &&& self.quest_type == QuestType::Direct ==> self.target is Some
            && self.target != Some(self.creator)
        &&& self.current_claimers <= self.max_claimers
        &&& !self.is_terminal() ==> (self.status == QuestStatus::Claimed
            <==> self.current_claimers == self.max_claimers)
    }

    /// The quest with one more claimer: `Claimed` once the limit is reached.
    pub open spec fn with_claimer_added(self) -> Quest {
        let claimers = (self.current_claimers + 1) as u8;
        Quest {
            current_claimers: claimers,
            status: if claimers >= self.max_claimers {
                QuestStatus::Claimed
            } else {
                self.status
            },
            ..self
        }
    }

    /// The quest with one claimer fewer, never under zero: a `Claimed` quest
    /// is `Active` again.
    pub open spec fn with_claimer_removed(self) -> Quest {
        Quest {
            current_claimers: if self.current_claimers == 0 {
                0u8
            } else {
                (self.current_claimers - 1) as u8
            },
            status: if self.status == QuestStatus::Claimed {
                QuestStatus::Active
            } else {
                self.status
            },
            ..self
        }
    }

    /// The quest moved to `status`, all else as it was.
    pub open spec fn moved_to(self, status: QuestStatus) -> Quest {
        Quest { status, ..self }
    }

    /// Whether two quests differ at most in status and claimer count.
    pub open spec fn same_terms(self, other: Quest) -> bool {
        self == (Quest {
            status: self.status,
            current_claimers: self.current_claimers,
            ..other
        })
    }
}

impl Claim {
    /// Whether the stake is still in escrow.
    pub open spec fn is_live(self) -> bool {
        self.status.is_live()
    }

    /// Whether the claim has reached a final status.
    pub open spec fn is_terminal(self) -> bool {
        self.status.is_terminal()
    }

    /// The deadlines of a claim against `quest` are what the quest's windows
    /// make of its timestamps: the proof deadline lies the proof window after
    /// the claim; a claim has a proof, its time and a review deadline exactly
    /// once it was submitted; the proof came by the proof deadline and the
    /// review deadline lies the review window after it.
    pub open spec fn well_timed(self, quest: Quest) -> bool {
        &&& self.proof_deadline == self.claimed_at + window_seconds(quest.proof_deadline_hours)
        &&& (self.status is Active || self.status is Abandoned || self.status is Expired)
            ==> self.submitted_at is None
        &&& (self.status is Submitted || self.status is Approved || self.status is Rejected)
            ==> self.submitted_at is Some
        &&& match self.submitted_at {
            Some(at) => {
                &&& at <= self.proof_deadline
                &&& at + window_seconds(quest.review_deadline_hours) <= i64::MAX
                &&& self.review_deadline == Some(
                    (at + window_seconds(quest.review_deadline_hours)) as i64,
                )
                &&& self.proof_hash is Some
            },
            None => self.review_deadline is None && self.proof_hash is None,
        }
    }

    /// The claim moved to `status`, all else as it was.
    pub open spec fn moved_to(self, status: ClaimStatus) -> Claim {
        Claim { status, ..self }
    }
}

/// The claimers of a well-formed quest never outnumber its limit, and while
/// the quest is not final it is `Claimed` exactly when they have reached it.
/// Every move that an operation makes keeps a quest well formed: a claimer
/// more on an active quest, a claimer fewer, and each of the closing moves.
pub proof fn claimer_bound_is_kept(quest: Quest)
    requires
        quest.well_formed(),
    ensures
        quest.current_claimers <= quest.max_claimers,
        !quest.is_terminal() ==> (quest.status == QuestStatus::Claimed <==> quest.current_claimers
            == quest.max_claimers),
        quest.status == QuestStatus::Active ==> quest.with_claimer_added().well_formed(),
        quest.with_claimer_removed().well_formed(),
        quest.moved_to(QuestStatus::Completed).well_formed(),
        quest.moved_to(QuestStatus::Failed).well_formed(),
        quest.moved_to(QuestStatus::Cancelled).well_formed(),
{
}

/// No move touches what was fixed when the quest was created: its id, its
/// parties, its reward, its kind and target, its limit, its expiry and its
/// windows stay as they were.
pub proof fn quest_moves_keep_the_terms(quest: Quest, status: QuestStatus)
    ensures
        quest.with_claimer_added().same_terms(quest),
        quest.with_claimer_removed().same_terms(quest),
        quest.moved_to(status).same_terms(quest),
{
}

} // verus!
