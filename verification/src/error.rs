use vstd::prelude::*;

verus! {

/// Why an operation was turned down. A refused operation changes nothing.
#[derive(Clone, Copy, Debug, PartialEq, Eq, Structural)]
pub enum QuestError {
    /// The reward is under the protocol's floor.
    RewardTooLow,
    /// The claimer limit is zero or over one hundred.
    InvalidMaxClaimers,
    /// The quest is not open for this operation.
    QuestNotActive,
    /// Every claim slot of the quest is taken.
    QuestFull,
    /// The quest's expiry has come.
    QuestExpired,
    /// A direct quest was claimed by someone other than its target.
    NotTargetUser,
    /// The claim is not active.
    ClaimNotActive,
    /// The caller is not the claim's claimer.
    NotClaimer,
    /// The claim has no proof under review.
    ClaimNotSubmitted,
    /// The caller is not the protocol authority.
    NotOracle,
    /// The caller is not the quest's creator.
    NotCreator,
    /// The quest still has claimers.
    QuestAlreadyClaimed,
    /// A creator tried to claim their own quest.
    CannotClaimOwnQuest,
    /// The stake is under five percent of the reward.
    StakeTooLow,
    /// A direct quest was created without a target.
    DirectQuestNeedsTarget,
    /// A direct quest names its own creator as target.
    CannotTargetSelf,
    /// The proof came after the proof deadline.
    ProofDeadlinePassed,
    /// The deadline that the operation waits for has not passed yet.
    DeadlineNotReached,
    /// The claim under review carries no review deadline.
    NoReviewDeadline,
    /// The expiry is not in the future.
    InvalidTimeLimit,
    /// A rate is over one hundred percent.
    InvalidFeeConfig,
    /// A checked computation left the range of its type.
    Overflow,
}

/// The four families that the errors fall into.
#[derive(Clone, Copy, Debug, PartialEq, Eq, Structural)]
pub enum ErrorKind {
    /// Data supplied by the caller was rejected before anything changed.
    Validation,
    /// The operation does not apply to the current status.
    StateConflict,
    /// The caller is not the party that may do this.
    Authorization,
    /// A checked computation failed.
    Arithmetic,
}

impl QuestError {
    /// The family of this error.
    pub open spec fn kind_of(self) -> ErrorKind {
        match self {
            QuestError::RewardTooLow
            | QuestError::InvalidMaxClaimers
            | QuestError::DirectQuestNeedsTarget
            | QuestError::CannotTargetSelf
            | QuestError::InvalidTimeLimit
            | QuestError::InvalidFeeConfig
            | QuestError::StakeTooLow => ErrorKind::Validation,
            QuestError::QuestNotActive
            | QuestError::QuestFull
            | QuestError::QuestExpired
            | QuestError::QuestAlreadyClaimed
            | QuestError::ClaimNotActive
            | QuestError::ClaimNotSubmitted
            | QuestError::ProofDeadlinePassed
            | QuestError::DeadlineNotReached
            | QuestError::NoReviewDeadline => ErrorKind::StateConflict,
            QuestError::NotTargetUser
            | QuestError::NotClaimer
            | QuestError::NotOracle
            | QuestError::NotCreator
            | QuestError::CannotClaimOwnQuest => ErrorKind::Authorization,
            QuestError::Overflow => ErrorKind::Arithmetic,
        }
    }

    /// The family of this error.
    pub fn kind(&self) -> (kind: ErrorKind)
        ensures
            kind == self.kind_of(),
    {
        match self {
            QuestError::RewardTooLow
            | QuestError::InvalidMaxClaimers
            | QuestError::DirectQuestNeedsTarget
            | QuestError::CannotTargetSelf
            | QuestError::InvalidTimeLimit
            | QuestError::InvalidFeeConfig
            | QuestError::StakeTooLow => ErrorKind::Validation,
            QuestError::QuestNotActive
            | QuestError::QuestFull
            | QuestError::QuestExpired
            | QuestError::QuestAlreadyClaimed
            | QuestError::ClaimNotActive
            | QuestError::ClaimNotSubmitted
            | QuestError::ProofDeadlinePassed
            | QuestError::DeadlineNotReached
            | QuestError::NoReviewDeadline => ErrorKind::StateConflict,
            QuestError::NotTargetUser
            | QuestError::NotClaimer
            | QuestError::NotOracle
            | QuestError::NotCreator
            | QuestError::CannotClaimOwnQuest => ErrorKind::Authorization,
            QuestError::Overflow => ErrorKind::Arithmetic,
        }
    }
}

} // verus!
