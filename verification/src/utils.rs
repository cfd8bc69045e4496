//! Reward-per-share accumulator arithmetic.
//!
//! A pool keeps one running number, the reward accrued so far by a single
//! staked unit, scaled by [`REWARD_PRECISION`]. A position's entitlement is
//! its principal times that number; what it has already been credited is its
//! reward debt. All quotients round down, so an entitlement never exceeds the
//! exact product; what a position earns over an interval, being a difference
//! of two rounded entitlements, is within one unit of its exact share.
//!
//! The specifications are stated over unbounded integers. A result that does
//! not fit the 64 bits it is stored in is reported as
//! [`EconomicsError::MathOverflow`], never truncated.

use crate::clock::unix_timestamp;
use crate::errors::EconomicsError;
use crate::errors::OperationError;
use crate::state::StakingPool;
use crate::state::TokenEconomics;
use crate::state::UserStake;
use vstd::prelude::*;

verus! {

/// Fixed-point scale of the reward-per-share accumulator.
pub const REWARD_PRECISION: u128 = 1_000_000_000_000;

/// A quantity as it is stored: itself when it fits 64 unsigned bits, an
/// overflow otherwise.
pub open spec fn stored(value: int) -> Result<u64, EconomicsError> {
    if 0 <= value <= u64::MAX {
        Ok(value as u64)
    } else {
        Err(EconomicsError::MathOverflow)
    }
}

/// Growth of a pool's reward per share over `elapsed` seconds.
///
/// The pool emits `rate * elapsed * multiplier / 100`, shared among `staked`
/// units. Nothing accrues when no time has passed or nothing is staked.
pub open spec fn reward_per_share_delta(
    rate: int,
    elapsed: int,
    multiplier: int,
    staked: int,
) -> int {
    if elapsed > 0 && staked > 0 {
        (((rate * elapsed) * multiplier) / 100 * 1_000_000_000_000) / staked
    } else {
        0
    }
}

/// The pool's reward per share brought up to time `now`.
pub open spec fn accrued_reward_per_share(
    economics: TokenEconomics,
    pool: StakingPool,
    now: i64,
) -> int {
    pool.accumulated_reward_per_token + reward_per_share_delta(
        economics.reward_rate_per_second as int,
        now - economics.last_reward_update_time,
        pool.reward_multiplier as int,
        pool.total_staked as int,
    )
}

/// Reward that `amount` staked units are entitled to at `per_share`; also the
/// debt that re-baselines a position of that size.
pub open spec fn reward_debt_for(amount: int, per_share: int) -> int {
    (amount * per_share) / 1_000_000_000_000
}

/// Reward earned by a position since its debt was last set, never negative.
pub open spec fn pending_reward(staked: int, per_share: int, debt: int) -> int {
    let earned = reward_debt_for(staked, per_share);
    if earned >= debt {
        earned - debt
    } else {
        0
    }
}

/// Non-negative rewards: whatever the principal, the accumulator and the
/// debt, in whatever order they came about, the pending reward is not
/// negative.
pub proof fn lemma_pending_reward_nonnegative(staked: int, per_share: int, debt: int)
    ensures
        pending_reward(staked, per_share, debt) >= 0,
{
}

/// Stake-weighted accrual: a position that was re-baselined when the pool's
/// reward per share stood at `before` has, once it stands at `after`, earned
/// its principal times the growth, to within one unit of rounding.
pub proof fn lemma_pending_tracks_accrual(staked: int, before: int, after: int)
    requires
        0 <= staked,
        0 <= before <= after,
    ensures
        ({
            let earned = pending_reward(staked, after, reward_debt_for(staked, before));
            let exact = staked * (after - before);
            exact - 1_000_000_000_000 < earned * 1_000_000_000_000 < exact + 1_000_000_000_000
        }),
{
    lemma_reward_debt_monotone(staked, staked, before);
    assert(0 <= staked * before <= staked * after && staked * (after - before) == staked * after
        - staked * before) by (nonlinear_arith)
        requires
            0 <= staked,
            0 <= before <= after,
    ;
}

/// A quotient of a 128-bit overflow by a 64-bit divisor does not fit 64 bits.
proof fn lemma_quotient_overflows(numerator: int, divisor: int)
    by (nonlinear_arith)
    requires
        numerator >= 0x1_0000_0000_0000_0000_0000_0000_0000_0000,
        0 < divisor < 0x1_0000_0000_0000_0000,
    ensures
        numerator / divisor >= 0x1_0000_0000_0000_0000,
{
}

/// Two 64-bit factors have a 128-bit product.
proof fn lemma_product_fits(a: int, b: int)
    by (nonlinear_arith)
    requires
        0 <= a < 0x1_0000_0000_0000_0000,
        0 <= b < 0x1_0000_0000_0000_0000,
    ensures
        0 <= a * b < 0x1_0000_0000_0000_0000_0000_0000_0000_0000,
{
}

/// The accumulator never shrinks: the growth over any interval is
/// non-negative.
pub proof fn lemma_reward_per_share_delta_nonnegative(
    rate: int,
    elapsed: int,
    multiplier: int,
    staked: int,
)
    requires
        rate >= 0,
        multiplier >= 0,
    ensures
        reward_per_share_delta(rate, elapsed, multiplier, staked) >= 0,
{
    if elapsed > 0 && staked > 0 {
        assert(rate * elapsed >= 0) by (nonlinear_arith)
            requires
                rate >= 0,
                elapsed > 0,
        ;
        assert((rate * elapsed) * multiplier >= 0) by (nonlinear_arith)
            requires
                rate * elapsed >= 0,
                multiplier >= 0,
        ;
        let numerator = ((rate * elapsed) * multiplier) / 100 * 1_000_000_000_000;
        assert(numerator >= 0);
        assert(numerator / staked >= 0) by (nonlinear_arith)
            requires
                numerator >= 0,
                staked > 0,
        ;
    }
}

/// A larger position is entitled to at least as much as a smaller one.
pub proof fn lemma_reward_debt_monotone(smaller: int, larger: int, per_share: int)
    requires
        0 <= smaller <= larger,
        per_share >= 0,
    ensures
        0 <= reward_debt_for(smaller, per_share) <= reward_debt_for(larger, per_share),
{
    assert(0 <= smaller * per_share <= larger * per_share) by (nonlinear_arith)
        requires
            0 <= smaller <= larger,
            per_share >= 0,
    ;
}

/// Computes the pool's reward per share at time `now` without touching either
/// record.
pub fn accrued_per_share(economics: &TokenEconomics, pool: &StakingPool, now: i64) -> (r: Result<
    u64,
    EconomicsError,
>)
    ensures
        r == stored(accrued_reward_per_share(*economics, *pool, now)),
{
    let elapsed: i128 = now as i128 - economics.last_reward_update_time as i128;
    if elapsed <= 0 || pool.total_staked == 0 {
        return Ok(pool.accumulated_reward_per_token);
    }
    let rate: u128 = economics.reward_rate_per_second as u128;
    let seconds: u128 = elapsed as u128;
    let staked: u128 = pool.total_staked as u128;
    proof {
        lemma_product_fits(rate as int, seconds as int);
    }
    let base: u128 = rate * seconds;
    let scaled: u128 = match base.checked_mul(pool.reward_multiplier as u128) {
        Some(v) => v,
        None => {
            proof {
                let product = (rate * seconds) * (pool.reward_multiplier as int);
                let numerator = product / 100 * 1_000_000_000_000;
                lemma_quotient_overflows(numerator, staked as int);
            }
            return Err(EconomicsError::MathOverflow);
        },
    };
    let pool_rewards: u128 = scaled / 100;
    let numerator: u128 = match pool_rewards.checked_mul(REWARD_PRECISION) {
        Some(v) => v,
        None => {
            proof {
                lemma_quotient_overflows(pool_rewards * 1_000_000_000_000, staked as int);
            }
            return Err(EconomicsError::MathOverflow);
        },
    };
    let delta: u128 = numerator / staked;
    let room: u64 = u64::MAX - pool.accumulated_reward_per_token;
    if delta > room as u128 {
        Err(EconomicsError::MathOverflow)
    } else {
        Ok(pool.accumulated_reward_per_token + delta as u64)
    }
}

/// Brings the pool's accumulator up to time `now` and records `now` as the
/// time of the last accrual tick.
///
/// The tick is recorded whether or not anything accrued, so that no interval
/// is counted twice. If the accumulator would leave its 64 bits, neither
/// record changes.
pub fn accrue(economics: &mut TokenEconomics, pool: &mut StakingPool, now: i64) -> (r: Result<
    (),
    EconomicsError,
>)
    ensures
        match stored(accrued_reward_per_share(*old(economics), *old(pool), now)) {
            Ok(per_share) => {
                &&& r == Ok::<(), EconomicsError>(())
                &&& *final(pool) == (StakingPool {
                    accumulated_reward_per_token: per_share,
                    ..*old(pool)
                })
                &&& *final(economics) == (TokenEconomics {
                    last_reward_update_time: now,
                    ..*old(economics)
                })
            },
            Err(e) => {
                &&& r == Err::<(), EconomicsError>(e)
                &&& *final(pool) == *old(pool)
                &&& *final(economics) == *old(economics)
            },
        },
        final(pool).accumulated_reward_per_token >= old(pool).accumulated_reward_per_token,
        r is Ok ==> accrued_reward_per_share(*final(economics), *final(pool), now)
            == final(pool).accumulated_reward_per_token,
        old(economics).well_formed() ==> final(economics).well_formed(),
        old(pool).well_formed() ==> final(pool).well_formed(),
{
    proof {
        lemma_reward_per_share_delta_nonnegative(
            economics.reward_rate_per_second as int,
            now - economics.last_reward_update_time,
            pool.reward_multiplier as int,
            pool.total_staked as int,
        );
    }
    match accrued_per_share(economics, pool, now) {
        Ok(per_share) => {
            pool.accumulated_reward_per_token = per_share;
            economics.last_reward_update_time = now;
            Ok(())
        },
        Err(e) => Err(e),
    }
}

/// Rewards a position has earned since its debt was last set.
///
/// The entitlement is `total_staked * per_share / REWARD_PRECISION`; what
/// exceeds the debt is pending, and a debt above the entitlement yields zero
/// rather than a failure. Neither record is changed.
pub fn calculate_pending_rewards(user_stake: &UserStake, pool: &StakingPool) -> (r: Result<
    u64,
    EconomicsError,
>)
    ensures
        r == pending_rewards_stored(
            user_stake.total_staked,
            pool.accumulated_reward_per_token,
            user_stake.reward_debt,
        ),
{
    pending_at(user_stake.total_staked, pool.accumulated_reward_per_token, user_stake.reward_debt)
}

/// What [`calculate_pending_rewards`] returns: the pending reward, provided
/// the entitlement it is measured from fits 64 bits.
pub open spec fn pending_rewards_stored(staked: u64, per_share: u64, debt: u64) -> Result<
    u64,
    EconomicsError,
> {
    if reward_debt_for(staked as int, per_share as int) > u64::MAX {
        Err(EconomicsError::MathOverflow)
    } else {
        Ok(pending_reward(staked as int, per_share as int, debt as int) as u64)
    }
}

/// Pending reward of `staked` units at `per_share` against `debt`.
pub(crate) fn pending_at(staked: u64, per_share: u64, debt: u64) -> (r: Result<u64, EconomicsError>)
    ensures
        r == pending_rewards_stored(staked, per_share, debt),
{
    match debt_at(staked, per_share) {
        Ok(earned) => {
            if earned >= debt {
                Ok(earned - debt)
            } else {
                Ok(0)
            }
        },
        Err(e) => Err(e),
    }
}

/// The reward debt of a position of `stake_amount` units in `pool`.
pub fn calculate_reward_debt(stake_amount: u64, pool: &StakingPool) -> (r: Result<
    u64,
    EconomicsError,
>)
    ensures
        r == stored(reward_debt_for(stake_amount as int, pool.accumulated_reward_per_token as int)),
{
    debt_at(stake_amount, pool.accumulated_reward_per_token)
}

/// Reward debt of `amount` units at `per_share`.
pub(crate) fn debt_at(amount: u64, per_share: u64) -> (r: Result<u64, EconomicsError>)
    ensures
        r == stored(reward_debt_for(amount as int, per_share as int)),
{
    proof {
        lemma_product_fits(amount as int, per_share as int);
    }
    let product: u128 = (amount as u128) * (per_share as u128);
    let debt: u128 = product / REWARD_PRECISION;
    if debt > u64::MAX as u128 {
        Err(EconomicsError::MathOverflow)
    } else {
        Ok(debt as u64)
    }
}

/// Reads the clock and brings the pool's accumulator up to the present.
///
/// If the clock cannot be read, its error is passed on and neither record
/// changes. Otherwise the records end as [`accrue`] leaves them for the time
/// that was read, which on success is the tick the configuration record then
/// shows.
pub fn update_reward_accumulation(economics: &mut TokenEconomics, pool: &mut StakingPool) -> (r:
    Result<(), OperationError>)
    ensures
        match r {
            Ok(_) => {
                let now = final(economics).last_reward_update_time;
                &&& stored(accrued_reward_per_share(*old(economics), *old(pool), now)) == Ok::<
                    u64,
                    EconomicsError,
                >(final(pool).accumulated_reward_per_token)
                &&& *final(pool) == (StakingPool {
                    accumulated_reward_per_token: final(pool).accumulated_reward_per_token,
                    ..*old(pool)
                })
                &&& *final(economics) == (TokenEconomics {
                    last_reward_update_time: now,
                    ..*old(economics)
                })
            },
            Err(OperationError::Economics(e)) => {
                &&& e == EconomicsError::MathOverflow
                &&& exists|now: i64| #[trigger]
                    stored(accrued_reward_per_share(*old(economics), *old(pool), now)) is Err
                &&& *final(pool) == *old(pool)
                &&& *final(economics) == *old(economics)
            },
            Err(OperationError::Clock(_)) => {
                &&& *final(pool) == *old(pool)
                &&& *final(economics) == *old(economics)
            },
        },
        final(pool).accumulated_reward_per_token >= old(pool).accumulated_reward_per_token,
{
    match unix_timestamp() {
        Ok(now) => match accrue(economics, pool, now) {
            Ok(()) => Ok(()),
            Err(e) => Err(OperationError::Economics(e)),
        },
        Err(e) => Err(OperationError::Clock(e)),
    }
}

} // verus!
