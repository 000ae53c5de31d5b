use crate::error::QuestError;
use vstd::prelude::*;

verus! {

/// Basis points in a whole: rates are integers out of this.
pub const BPS_DENOMINATOR: u64 = 10000;

/// The lowest reward that a quest may carry.
pub const MIN_REWARD: u64 = 1_000_000;

/// The lowest stake, in basis points of the reward: five percent.
pub const MIN_STAKE_BPS: u64 = 500;

/// Seconds in an hour.
pub const SECONDS_PER_HOUR: i64 = 3600;

/// The part of `amount` that a rate of `bps` basis points stands for, rounded down.
pub open spec fn bps_share(amount: int, bps: int) -> int {
    (amount * bps) / (BPS_DENOMINATOR as int)
}

/// The fee on `reward` at `fee_bps` and what is left of the reward after it, or
/// `None` where the product `reward * fee_bps` leaves `u64` or the fee exceeds
/// the reward.
pub open spec fn fee_split(reward: u64, fee_bps: u16) -> Option<(u64, u64)> {
    let fee = bps_share(reward as int, fee_bps as int);
    if reward * fee_bps > u64::MAX || fee > reward {
        None
    } else {
        Some((fee as u64, (reward - fee) as u64))
    }
}

/// The lowest stake that a quest with this reward accepts, or `None` where
/// `reward * 500` leaves `u64`.
pub open spec fn stake_floor(reward: u64) -> Option<u64> {
    if reward * MIN_STAKE_BPS > u64::MAX {
        None
    } else {
        Some(bps_share(reward as int, MIN_STAKE_BPS as int) as u64)
    }
}

/// The length of a window of `hours` hours, in seconds.
pub open spec fn window_seconds(hours: u8) -> int {
    hours * SECONDS_PER_HOUR
}

/// The moment `hours` hours after `base`, or `None` where it leaves `i64`.
pub open spec fn deadline_from(base: i64, hours: u8) -> Option<i64> {
    if base + window_seconds(hours) > i64::MAX {
        None
    } else {
        Some((base + window_seconds(hours)) as i64)
    }
}

/// Splits a reward into the protocol fee and the net payout.
///
/// The fee is `reward_amount * fee_bps / 10000` rounded down and the net is the
/// rest. Fails with `Overflow` where the product does not fit in `u64` or the
/// fee exceeds the reward, and only there.
pub fn compute_fee(reward_amount: u64, fee_bps: u16) -> (split: Result<(u64, u64), QuestError>)
    ensures
        split == match fee_split(reward_amount, fee_bps) {
            Some(parts) => Ok::<(u64, u64), QuestError>(parts),
            None => Err(QuestError::Overflow),
        },
{
    let product = match reward_amount.checked_mul(fee_bps as u64) {
        Some(p) => p,
        None => {
            return Err(QuestError::Overflow);
        },
    };
    let fee = product / BPS_DENOMINATOR;
    match reward_amount.checked_sub(fee) {
        Some(net) => Ok((fee, net)),
        None => Err(QuestError::Overflow),
    }
}

/// The lowest stake accepted on a reward: five percent of it, rounded down.
/// Fails with `Overflow` where `reward_amount * 500` does not fit in `u64`, and
/// only there.
pub fn min_stake(reward_amount: u64) -> (floor: Result<u64, QuestError>)
    ensures
        floor == match stake_floor(reward_amount) {
            Some(least) => Ok::<u64, QuestError>(least),
            None => Err(QuestError::Overflow),
        },
{
    match reward_amount.checked_mul(MIN_STAKE_BPS) {
        Some(product) => Ok(product / BPS_DENOMINATOR),
        None => Err(QuestError::Overflow),
    }
}

/// The deadline that lies `hours` hours after `base`. Fails with `Overflow`
/// where that moment does not fit in `i64`, and only there.
pub fn deadline_after(base: i64, hours: u8) -> (deadline: Result<i64, QuestError>)
    ensures
        deadline == match deadline_from(base, hours) {
            Some(at) => Ok::<i64, QuestError>(at),
            None => Err(QuestError::Overflow),
        },
{
    let window: i64 = (hours as i64) * SECONDS_PER_HOUR;
    match base.checked_add(window) {
        Some(at) => Ok(at),
        None => Err(QuestError::Overflow),
    }
}

/// For a rate of at most one hundred percent whose product with the reward fits
/// in `u64`, the split exists, fee and net add up to the reward, and the fee is
/// the largest whole number whose ten-thousandfold does not exceed
/// `reward * fee_bps`.
pub proof fn fee_split_is_exact(reward: u64, fee_bps: u16)
    requires
        fee_bps <= BPS_DENOMINATOR,
        reward * fee_bps <= u64::MAX,
    ensures
        fee_split(reward, fee_bps) matches Some((fee, net)) && {
            &&& fee + net == reward
            &&& fee == (reward * fee_bps) / (BPS_DENOMINATOR as int)
            &&& fee * BPS_DENOMINATOR <= reward * fee_bps < (fee + 1) * BPS_DENOMINATOR
        },
{
    let product = reward * fee_bps;
    assert(product <= reward * 10000) by (nonlinear_arith)
        requires
            product == reward * fee_bps,
            fee_bps <= 10000,
    ;
}

} // verus!
