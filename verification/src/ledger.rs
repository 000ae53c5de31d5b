use crate::state::{Claim, Quest};
use vstd::prelude::*;

verus! {

/// The four ends between which value moves.
#[derive(Clone, Copy, Debug, PartialEq, Eq, Structural)]
pub enum Party {
    /// The quest's creator.
    Creator,
    /// The claimer of the claim at hand.
    Claimer,
    /// The protocol treasury.
    Treasury,
    /// The quest's escrow.
    Escrow,
}

/// One movement of value. A transfer out of the escrow is authorized by the
/// quest itself, any other by the party it comes from.
#[derive(Clone, Copy, Debug, PartialEq, Eq, Structural)]
pub struct Transfer {
    pub from: Party,
    pub to: Party,
    pub amount: u64,
}

/// What a successful operation leaves to its caller: the transfers to carry
/// out, in this order and all or none, and the one event to record.
#[derive(Clone, Debug, PartialEq, Eq)]
pub struct Effects<E> {
    pub transfers: Vec<Transfer>,
    pub event: E,
}

/// A deposit of `amount` by `from` into the escrow.
pub open spec fn deposit(from: Party, amount: u64) -> Transfer {
    Transfer { from, to: Party::Escrow, amount }
}

/// A payout of `amount` from the escrow to `to`.
pub open spec fn payout(to: Party, amount: u64) -> Transfer {
    Transfer { from: Party::Escrow, to, amount }
}

/// By how much one transfer raises the escrow's balance.
pub open spec fn escrow_gain_of(transfer: Transfer) -> int {
    (if transfer.to == Party::Escrow {
        transfer.amount as int
    } else {
        0
    }) - (if transfer.from == Party::Escrow {
        transfer.amount as int
    } else {
        0
    })
}

/// By how much a run of transfers raises the escrow's balance.
pub open spec fn escrow_gain(transfers: Seq<Transfer>) -> int
    decreases transfers.len(),
{
    if transfers.len() == 0 {
        0
    } else {
        escrow_gain(transfers.drop_last()) + escrow_gain_of(transfers.last())
    }
}

/// What the escrow holds for the quest itself: the reward until the quest is
/// final, nothing after.
pub open spec fn reward_held(quest: Quest) -> int {
    if quest.is_terminal() {
        0
    } else {
        quest.reward_amount as int
    }
}

/// What the escrow holds for one claim: the stake while the claim is live.
pub open spec fn stake_held(claim: Claim) -> int {
    if claim.is_live() {
        claim.stake_amount as int
    } else {
        0
    }
}

/// The stakes of the live claims among `claims`.
pub open spec fn stakes_held(claims: Seq<Claim>) -> int
    decreases claims.len(),
{
    if claims.len() == 0 {
        0
    } else {
        stakes_held(claims.drop_last()) + stake_held(claims.last())
    }
}

/// What the escrow of a quest with these claims ought to hold.
pub open spec fn escrow_due(quest: Quest, claims: Seq<Claim>) -> int {
    reward_held(quest) + stakes_held(claims)
}

/// Builds the payout of `amount` from the escrow to `to`.
pub(crate) fn pay(to: Party, amount: u64) -> (transfer: Transfer)
    ensures
        transfer == payout(to, amount),
{
    Transfer { from: Party::Escrow, to, amount }
}

} // verus!
