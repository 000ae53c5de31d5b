use crate::arbitration::{approval_transfers, approved, rejection_refusal, rejection_transfers};
use crate::claims::{claim_refusal, opened_claim, proof_refusal, released, submitted_claim};
use crate::events::QuestCompleted;
use crate::ledger::{
    deposit, escrow_due, escrow_gain, escrow_gain_of, payout, stake_held, stakes_held, Party,
    Transfer,
};
use crate::quests::cancel_refusal;
use crate::state::{Claim, ClaimStatus, Quest, QuestConfig, QuestStatus};
use anchor_lang::prelude::Pubkey;
use vstd::prelude::*;

verus! {

/// The books of one quest: the quest, every claim ever made on it, and the
/// balance of its escrow.
pub struct Book {
    pub quest: Quest,
    pub claims: Seq<Claim>,
    pub balance: int,
}

/// How many of `claims` are live.
pub open spec fn live_claims(claims: Seq<Claim>) -> int
    decreases claims.len(),
{
    if claims.len() == 0 {
        0
    } else {
        live_claims(claims.drop_last()) + if claims.last().is_live() {
            1int
        } else {
            0int
        }
    }
}

impl Book {
    /// The books are in order when the quest is well formed, the escrow
    /// holds exactly what is due, which is the reward of a quest that is not
    /// final and the stakes of the live claims, and the claimer count agrees
    /// with the claims: while the quest is not final, it is the number of
    /// live claims, and once a quest for a single claimer is final, no claim
    /// on it is live.
    pub open spec fn in_order(self) -> bool {
        &&& self.quest.well_formed()
        &&& self.balance == escrow_due(self.quest, self.claims)
        &&& !self.quest.is_terminal() ==> self.quest.current_claimers == live_claims(self.claims)
        &&& self.quest.is_terminal() && self.quest.max_claimers == 1 ==> live_claims(self.claims)
            == 0
    }

    /// The books after an operation that left the quest and the claims as
    /// given and asked for these transfers.
    pub open spec fn after(self, quest: Quest, claims: Seq<Claim>, transfers: Seq<Transfer>) -> Book {
        Book { quest, claims, balance: self.balance + escrow_gain(transfers) }
    }
}

/// The gain of a single transfer is its own.
pub proof fn gain_of_one(first: Transfer)
    ensures
        escrow_gain(seq![first]) == escrow_gain_of(first),
{
    assert(seq![first].drop_last() =~= Seq::<Transfer>::empty());
    assert(escrow_gain(seq![first].drop_last()) == 0);
}

/// The gain of two transfers is the sum of theirs.
pub proof fn gain_of_two(first: Transfer, second: Transfer)
    ensures
        escrow_gain(seq![first, second]) == escrow_gain_of(first) + escrow_gain_of(second),
{
    gain_of_one(first);
    assert(seq![first, second].drop_last() =~= seq![first]);
}

/// A further claim adds what the escrow holds for it, and counts if it is
/// live.
pub proof fn claims_with_one_more(claims: Seq<Claim>, claim: Claim)
    ensures
        stakes_held(claims.push(claim)) == stakes_held(claims) + stake_held(claim),
        live_claims(claims.push(claim)) == live_claims(claims) + if claim.is_live() {
            1int
        } else {
            0int
        },
{
    assert(claims.push(claim).drop_last() =~= claims);
}

/// Replacing one claim replaces what the escrow holds for it, and its part
/// in the count of live claims.
pub proof fn claims_with_one_changed(claims: Seq<Claim>, at: int, claim: Claim)
    requires
        0 <= at < claims.len(),
    ensures
        stakes_held(claims.update(at, claim)) == stakes_held(claims) - stake_held(claims[at])
            + stake_held(claim),
        live_claims(claims.update(at, claim)) == live_claims(claims) - (if claims[at].is_live() {
            1int
        } else {
            0int
        }) + (if claim.is_live() {
            1int
        } else {
            0int
        }),
    decreases claims.len(),
{
    if at == claims.len() - 1 {
        assert(claims.update(at, claim).drop_last() =~= claims.drop_last());
    } else {
        claims_with_one_changed(claims.drop_last(), at, claim);
        assert(claims.update(at, claim).drop_last() =~= claims.drop_last().update(at, claim));
    }
}

/// Neither the stakes held nor the count of live claims is ever negative,
/// and where no claim is live no stake is held.
pub proof fn live_claims_carry_the_stakes(claims: Seq<Claim>)
    ensures
        stakes_held(claims) >= 0,
        live_claims(claims) >= 0,
        live_claims(claims) == 0 ==> stakes_held(claims) == 0,
    decreases claims.len(),
{
    if claims.len() > 0 {
        live_claims_carry_the_stakes(claims.drop_last());
    }
}

/// Where no claim is live, every claim is final.
pub proof fn without_live_claims_all_are_final(claims: Seq<Claim>, at: int)
    requires
        live_claims(claims) == 0,
        0 <= at < claims.len(),
    ensures
        claims[at].is_terminal(),
    decreases claims.len(),
{
    live_claims_carry_the_stakes(claims.drop_last());
    if at < claims.len() - 1 {
        without_live_claims_all_are_final(claims.drop_last(), at);
    }
}

/// While a quest is not final, what is due to its escrow is the reward and
/// the stakes of its live claims; once it is final, those stakes alone. It is
/// never negative.
pub proof fn due_is_reward_and_live_stakes(quest: Quest, claims: Seq<Claim>)
    ensures
        !quest.is_terminal() ==> escrow_due(quest, claims) == quest.reward_amount + stakes_held(
            claims,
        ),
        quest.is_terminal() ==> escrow_due(quest, claims) == stakes_held(claims),
        escrow_due(quest, claims) >= 0,
{
    live_claims_carry_the_stakes(claims);
}

/// Creation opens books that are in order: the deposit of the reward is all
/// that the escrow of a new quest holds, and all that is due to it.
pub proof fn creation_opens_the_books(quest: Quest)
    requires
        quest.well_formed(),
        quest.status == QuestStatus::Active,
        quest.current_claimers == 0,
    ensures
        ({
            let opened = Book { quest, claims: Seq::<Claim>::empty(), balance: 0 }.after(
                quest,
                Seq::<Claim>::empty(),
                seq![deposit(Party::Creator, quest.reward_amount)],
            );
            opened.in_order() && opened.balance == quest.reward_amount
        }),
{
    gain_of_one(deposit(Party::Creator, quest.reward_amount));
}

/// An accepted claim keeps the books in order: the stake comes in on top of
/// what was there, and the quest counts the new claim.
pub proof fn claiming_keeps_the_books(
    book: Book,
    quest_key: Pubkey,
    claimer: Pubkey,
    stake_amount: u64,
    now: i64,
    bump: u8,
)
    requires
        book.in_order(),
        claim_refusal(book.quest, claimer, stake_amount, now) is None,
    ensures
        book.after(
            book.quest.with_claimer_added(),
            book.claims.push(opened_claim(book.quest, quest_key, claimer, stake_amount, now, bump)),
            seq![deposit(Party::Claimer, stake_amount)],
        ).in_order(),
{
    gain_of_one(deposit(Party::Claimer, stake_amount));
    claims_with_one_more(
        book.claims,
        opened_claim(book.quest, quest_key, claimer, stake_amount, now, bump),
    );
}

/// An accepted proof keeps the books in order: nothing moves and the claim
/// stays live.
pub proof fn proving_keeps_the_books(
    book: Book,
    at: int,
    claimer: Pubkey,
    proof_hash: [u8; 32],
    now: i64,
)
    requires
        0 <= at < book.claims.len(),
        book.in_order(),
        proof_refusal(book.quest, book.claims[at], claimer, now) is None,
    ensures
        book.after(
            book.quest,
            book.claims.update(
                at,
                submitted_claim(book.quest, book.claims[at], proof_hash, now),
            ),
            Seq::<Transfer>::empty(),
        ).in_order(),
{
    claims_with_one_changed(
        book.claims,
        at,
        submitted_claim(book.quest, book.claims[at], proof_hash, now),
    );
}

/// The release of an active claim, abandoned or expired, keeps the books in
/// order, whatever the status of the quest: the stake leaves with the claim,
/// and the quest gives the slot up.
pub proof fn release_keeps_the_books(
    book: Book,
    at: int,
    closed: ClaimStatus,
    quest_after: Quest,
    claim_after: Claim,
    transfers: Seq<Transfer>,
)
    requires
        0 <= at < book.claims.len(),
        book.in_order(),
        book.claims[at].status == ClaimStatus::Active,
        closed == ClaimStatus::Abandoned || closed == ClaimStatus::Expired,
        released(closed, book.quest, book.claims[at], quest_after, claim_after, transfers),
    ensures
        book.after(quest_after, book.claims.update(at, claim_after), transfers).in_order(),
{
    claims_with_one_changed(book.claims, at, claim_after);
    live_claims_carry_the_stakes(book.claims.update(at, claim_after));
    if book.claims[at].stake_amount > 0 {
        gain_of_one(payout(Party::Creator, book.claims[at].stake_amount));
    }
}

/// The approval of a claim on a quest that is not yet final, by the arbiter
/// or by timeout, keeps the books in order: reward and stake leave together,
/// as the claimer's sum and the fee. What the escrow still holds are the
/// stakes of the other live claims; it is empty where the approved claim was
/// the only live one, as on every quest for a single claimer.
pub proof fn approval_keeps_the_books(
    book: Book,
    at: int,
    fee_bps: u16,
    quest_after: Quest,
    claim_after: Claim,
    transfers: Seq<Transfer>,
    event: QuestCompleted,
)
    requires
        0 <= at < book.claims.len(),
        book.in_order(),
        !book.quest.is_terminal(),
        book.claims[at].status == ClaimStatus::Submitted,
        approved(fee_bps, book.quest, book.claims[at], quest_after, claim_after, transfers, event),
    ensures
        ({
            let closed = book.after(quest_after, book.claims.update(at, claim_after), transfers);
            &&& closed.in_order()
            &&& closed.quest.is_terminal()
            &&& escrow_gain(transfers) == -(book.quest.reward_amount
                + book.claims[at].stake_amount)
            &&& closed.balance == stakes_held(closed.claims)
            &&& live_claims(book.claims) == 1 ==> closed.balance == 0
            &&& book.quest.max_claimers == 1 ==> closed.balance == 0
        }),
{
    claims_with_one_changed(book.claims, at, claim_after);
    live_claims_carry_the_stakes(book.claims.update(at, claim_after));
    let fee = event.fee_amount;
    let claimer_sum = (event.reward_amount + book.claims[at].stake_amount) as u64;
    assert(transfers == approval_transfers(fee, claimer_sum));
    if fee > 0 {
        gain_of_two(payout(Party::Claimer, claimer_sum), payout(Party::Treasury, fee));
    } else {
        gain_of_one(payout(Party::Claimer, claimer_sum));
    }
}

/// The rejection of a claim on a quest that is not yet final, flagged or
/// not, keeps the books in order: reward and stake leave, in one transfer or
/// in two. What the escrow still holds are the stakes of the other live
/// claims; it is empty where the rejected claim was the only live one, as on
/// every quest for a single claimer.
pub proof fn rejection_keeps_the_books(
    book: Book,
    at: int,
    config: QuestConfig,
    authority: Pubkey,
    safety_flagged: bool,
)
    requires
        0 <= at < book.claims.len(),
        book.in_order(),
        !book.quest.is_terminal(),
        rejection_refusal(config, book.quest, book.claims[at], authority, safety_flagged) is None,
    ensures
        ({
            let transfers = rejection_transfers(
                book.quest.reward_amount,
                book.claims[at].stake_amount,
                safety_flagged,
            );
            let closed = book.after(
                book.quest.moved_to(QuestStatus::Failed),
                book.claims.update(at, book.claims[at].moved_to(ClaimStatus::Rejected)),
                transfers,
            );
            &&& closed.in_order()
            &&& closed.quest.is_terminal()
            &&& escrow_gain(transfers) == -(book.quest.reward_amount
                + book.claims[at].stake_amount)
            &&& closed.balance == stakes_held(closed.claims)
            &&& live_claims(book.claims) == 1 ==> closed.balance == 0
            &&& book.quest.max_claimers == 1 ==> closed.balance == 0
        }),
{
    let reward = book.quest.reward_amount;
    let stake = book.claims[at].stake_amount;
    let claim_after = book.claims[at].moved_to(ClaimStatus::Rejected);
    claims_with_one_changed(book.claims, at, claim_after);
    live_claims_carry_the_stakes(book.claims.update(at, claim_after));
    if safety_flagged {
        if stake > 0 {
            gain_of_two(payout(Party::Creator, reward), payout(Party::Claimer, stake));
        } else {
            gain_of_one(payout(Party::Creator, reward));
        }
    } else {
        gain_of_one(payout(Party::Creator, (reward + stake) as u64));
    }
}

/// A cancellation keeps the books in order and leaves the escrow empty: the
/// reward leaves, and a quest that can be cancelled has no live claim.
pub proof fn cancellation_closes_the_books(book: Book, creator: Pubkey)
    requires
        book.in_order(),
        cancel_refusal(book.quest, creator) is None,
    ensures
        ({
            let closed = book.after(
                book.quest.moved_to(QuestStatus::Cancelled),
                book.claims,
                seq![payout(Party::Creator, book.quest.reward_amount)],
            );
            &&& closed.in_order()
            &&& closed.quest.is_terminal()
            &&& closed.balance == 0
        }),
{
    gain_of_one(payout(Party::Creator, book.quest.reward_amount));
    live_claims_carry_the_stakes(book.claims);
}

} // verus!
