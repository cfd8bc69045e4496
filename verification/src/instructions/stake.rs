//! Staking, withdrawing, and the emergency exit.

use crate::clock::unix_timestamp;
use crate::errors::EconomicsError;
use crate::errors::OperationError;
use crate::events::EmergencyUnstakeEvent;
use crate::events::StakeEvent;
use crate::events::UnstakeEvent;
use crate::keys::same_key;
use crate::state::StakingPool;
use crate::state::TokenEconomics;
use crate::state::UserStake;
use crate::transfer::Holding;
use crate::transfer::TransferAuthority;
use crate::transfer::TransferRequest;
use crate::utils::accrued_per_share;
use crate::utils::accrued_reward_per_share;
use crate::utils::debt_at;
use crate::utils::lemma_reward_debt_monotone;
use crate::utils::lemma_reward_per_share_delta_nonnegative;
use crate::utils::pending_at;
use crate::utils::pending_reward;
use crate::utils::reward_debt_for;
use anchor_lang::prelude::Pubkey;
use vstd::prelude::*;

verus! {

/// The rule, if any, that turns a stake of `amount` away before the
/// accumulator is consulted. The rules are tried in the order listed.
pub open spec fn stake_rejection(
    economics: TokenEconomics,
    pool: StakingPool,
    user_stake: UserStake,
    amount: u64,
) -> Option<EconomicsError> {
    if !pool.is_active {
        Some(EconomicsError::PoolNotActive)
    } else if economics.is_paused {
        Some(EconomicsError::SystemPaused)
    } else if amount < economics.min_stake_amount {
        Some(EconomicsError::BelowMinimumStake)
    } else if pool.total_staked + amount > pool.max_capacity {
        Some(EconomicsError::PoolCapacityExceeded)
    } else if user_stake.total_staked + amount > economics.max_stake_amount {
        Some(EconomicsError::ExceedsMaximumStake)
    } else {
        None
    }
}

/// The records as a stake of `amount` at time `now` leaves them, or the
/// reason it is rejected.
///
/// The pool is accrued to `now`; what the position earned until then is
/// moved into its pending rewards; a position that held nothing is taken
/// over by `user` and counted as a new active staker; `amount` is added to
/// the position, the pool and the system total; and the position's debt is
/// set to what its new principal is entitled to at the accrued rate. If any
/// of the quantities to be stored does not fit its width, the stake is
/// rejected as an overflow.
pub open spec fn stake_outcome(
    economics: TokenEconomics,
    pool: StakingPool,
    user_stake: UserStake,
    user: Pubkey,
    pool_id: u8,
    bump: u8,
    amount: u64,
    now: i64,
) -> Result<(TokenEconomics, StakingPool, UserStake), EconomicsError> {
    let per_share = accrued_reward_per_share(economics, pool, now);
    let joins = user_stake.total_staked == 0;
    let joined: int = if joins { 1 } else { 0 };
    let pending = user_stake.pending_rewards + pending_reward(
        user_stake.total_staked as int,
        per_share,
        user_stake.reward_debt as int,
    );
    let principal = user_stake.total_staked + amount;
    let debt = reward_debt_for(principal, per_share);
    match stake_rejection(economics, pool, user_stake, amount) {
        Some(rule) => Err(rule),
        None => if per_share > u64::MAX || pending > u64::MAX || debt > u64::MAX
            || pool.active_stakers + joined > u32::MAX || economics.active_stakers + joined
            > u64::MAX || economics.total_staked + amount > u64::MAX {
            Err(EconomicsError::MathOverflow)
        } else {
            Ok(
                (
                    TokenEconomics {
                        total_staked: (economics.total_staked + amount) as u64,
                        active_stakers: (economics.active_stakers + joined) as u64,
                        last_reward_update_time: now,
                        ..economics
                    },
                    StakingPool {
                        total_staked: (pool.total_staked + amount) as u64,
                        active_stakers: (pool.active_stakers + joined) as u32,
                        accumulated_reward_per_token: per_share as u64,
                        ..pool
                    },
                    UserStake {
                        user: if joins { user } else { user_stake.user },
                        pool_id: if joins { pool_id } else { user_stake.pool_id },
                        bump: if joins { bump } else { user_stake.bump },
                        first_stake_time: if joins { now } else { user_stake.first_stake_time },
                        total_staked: principal as u64,
                        pending_rewards: pending as u64,
                        reward_debt: debt as u64,
                        last_stake_time: now,
                        ..user_stake
                    },
                ),
            )
        },
    }
}

/// Stakes `amount` for `user` at time `now`.
///
/// On success the three records are replaced by what [`stake_outcome`]
/// gives, and the caller is handed the event to publish and the transfer of
/// `amount` from the user into the stake vault. On rejection nothing changes.
pub fn stake_tokens_at(
    economics: &mut TokenEconomics,
    pool: &mut StakingPool,
    user_stake: &mut UserStake,
    user: Pubkey,
    pool_id: u8,
    bump: u8,
    amount: u64,
    now: i64,
) -> (r: Result<(StakeEvent, TransferRequest), EconomicsError>)
    ensures
        match stake_outcome(
            *old(economics),
            *old(pool),
            *old(user_stake),
            user,
            pool_id,
            bump,
            amount,
            now,
        ) {
            Ok((economics_after, pool_after, stake_after)) => {
                &&& r == Ok::<(StakeEvent, TransferRequest), EconomicsError>(
                    (
                        StakeEvent {
                            user,
                            pool_id,
                            amount,
                            total_user_stake: stake_after.total_staked,
                            total_pool_stake: pool_after.total_staked,
                        },
                        TransferRequest::deposit(amount),
                    ),
                )
                &&& *final(economics) == economics_after
                &&& *final(pool) == pool_after
                &&& *final(user_stake) == stake_after
            },
            Err(rule) => {
                &&& r == Err::<(StakeEvent, TransferRequest), EconomicsError>(rule)
                &&& *final(economics) == *old(economics)
                &&& *final(pool) == *old(pool)
                &&& *final(user_stake) == *old(user_stake)
            },
        },
        r is Ok ==> final(user_stake).reward_debt == reward_debt_for(
            final(user_stake).total_staked as int,
            final(pool).accumulated_reward_per_token as int,
        ),
        r is Ok ==> final(pool).total_staked <= final(pool).max_capacity,
        r is Ok ==> final(user_stake).total_staked <= final(economics).max_stake_amount,
        final(pool).accumulated_reward_per_token >= old(pool).accumulated_reward_per_token,
        old(economics).well_formed() ==> final(economics).well_formed(),
        old(pool).well_formed() ==> final(pool).well_formed(),
{
    if !pool.is_active {
        return Err(EconomicsError::PoolNotActive);
    }
    if economics.is_paused {
        return Err(EconomicsError::SystemPaused);
    }
    if amount < economics.min_stake_amount {
        return Err(EconomicsError::BelowMinimumStake);
    }
    if amount > pool.max_capacity || pool.total_staked > pool.max_capacity - amount {
        return Err(EconomicsError::PoolCapacityExceeded);
    }
    if amount > economics.max_stake_amount || user_stake.total_staked
        > economics.max_stake_amount - amount {
        return Err(EconomicsError::ExceedsMaximumStake);
    }
    proof {
        lemma_reward_per_share_delta_nonnegative(
            economics.reward_rate_per_second as int,
            now - economics.last_reward_update_time,
            pool.reward_multiplier as int,
            pool.total_staked as int,
        );
    }
    let per_share: u64 = match accrued_per_share(economics, pool, now) {
        Ok(v) => v,
        Err(e) => {
            return Err(e);
        },
    };
    let principal: u64 = user_stake.total_staked + amount;
    proof {
        lemma_reward_debt_monotone(
            user_stake.total_staked as int,
            principal as int,
            per_share as int,
        );
    }
    let debt: u64 = match debt_at(principal, per_share) {
        Ok(v) => v,
        Err(e) => {
            return Err(e);
        },
    };
    let earned: u64 = match pending_at(user_stake.total_staked, per_share, user_stake.reward_debt) {
        Ok(v) => v,
        Err(e) => {
            return Err(e);
        },
    };
    let pending: u64 = match user_stake.pending_rewards.checked_add(earned) {
        Some(v) => v,
        None => {
            return Err(EconomicsError::MathOverflow);
        },
    };
    let joins = user_stake.total_staked == 0;
    let mut pool_stakers: u32 = pool.active_stakers;
    let mut system_stakers: u64 = economics.active_stakers;
    if joins {
        pool_stakers = match pool.active_stakers.checked_add(1) {
            Some(v) => v,
            None => {
                return Err(EconomicsError::MathOverflow);
            },
        };
        system_stakers = match economics.active_stakers.checked_add(1) {
            Some(v) => v,
            None => {
                return Err(EconomicsError::MathOverflow);
            },
        };
    }
    let system_total: u64 = match economics.total_staked.checked_add(amount) {
        Some(v) => v,
        None => {
            return Err(EconomicsError::MathOverflow);
        },
    };
    let pool_total: u64 = pool.total_staked + amount;

    if joins {
        user_stake.user = user;
        user_stake.pool_id = pool_id;
        user_stake.first_stake_time = now;
        user_stake.bump = bump;
    }
    user_stake.pending_rewards = pending;
    user_stake.total_staked = principal;
    user_stake.last_stake_time = now;
    user_stake.reward_debt = debt;
    pool.accumulated_reward_per_token = per_share;
    pool.active_stakers = pool_stakers;
    pool.total_staked = pool_total;
    economics.last_reward_update_time = now;
    economics.active_stakers = system_stakers;
    economics.total_staked = system_total;
    Ok(
        (
            StakeEvent {
                user,
                pool_id,
                amount,
                total_user_stake: principal,
                total_pool_stake: pool_total,
            },
            TransferRequest {
                from: Holding::UserStakeAccount,
                to: Holding::StakeVault,
                authority: TransferAuthority::Owner,
                amount,
            },
        ),
    )
}

/// The rule, if any, that turns a stake away before the clock is consulted.
pub open spec fn stake_early_rejection(
    economics: TokenEconomics,
    pool: StakingPool,
    amount: u64,
) -> Option<EconomicsError> {
    if !pool.is_active {
        Some(EconomicsError::PoolNotActive)
    } else if economics.is_paused {
        Some(EconomicsError::SystemPaused)
    } else if amount < economics.min_stake_amount {
        Some(EconomicsError::BelowMinimumStake)
    } else {
        None
    }
}

/// Stakes `amount` for `user` at the time the clock shows.
///
/// An inactive pool, a paused system and an amount below the minimum are
/// rejected without reading the clock. If the clock then cannot be read, its
/// error is passed on. Otherwise the call ends as [`stake_tokens_at`] does
/// for the time that was read, which on success is the tick the
/// configuration record then shows. Nothing changes unless the result is
/// `Ok`.
pub fn stake_tokens(
    economics: &mut TokenEconomics,
    pool: &mut StakingPool,
    user_stake: &mut UserStake,
    user: Pubkey,
    pool_id: u8,
    bump: u8,
    amount: u64,
) -> (r: Result<(StakeEvent, TransferRequest), OperationError>)
    ensures
        stake_early_rejection(*old(economics), *old(pool), amount) matches Some(rule) ==> r == Err::<
            (StakeEvent, TransferRequest),
            OperationError,
        >(OperationError::Economics(rule)),
        match r {
            Ok((event, transfer)) => {
                &&& stake_outcome(
                    *old(economics),
                    *old(pool),
                    *old(user_stake),
                    user,
                    pool_id,
                    bump,
                    amount,
                    final(economics).last_reward_update_time,
                ) == Ok::<(TokenEconomics, StakingPool, UserStake), EconomicsError>(
                    (*final(economics), *final(pool), *final(user_stake)),
                )
                &&& event == (StakeEvent {
                    user,
                    pool_id,
                    amount,
                    total_user_stake: final(user_stake).total_staked,
                    total_pool_stake: final(pool).total_staked,
                })
                &&& transfer == TransferRequest::deposit(amount)
            },
            Err(OperationError::Economics(rule)) => {
                &&& exists|now: i64| #[trigger]
                    stake_outcome(
                        *old(economics),
                        *old(pool),
                        *old(user_stake),
                        user,
                        pool_id,
                        bump,
                        amount,
                        now,
                    ) == Err::<(TokenEconomics, StakingPool, UserStake), EconomicsError>(rule)
                &&& *final(economics) == *old(economics)
                &&& *final(pool) == *old(pool)
                &&& *final(user_stake) == *old(user_stake)
            },
            Err(OperationError::Clock(_)) => {
                &&& stake_early_rejection(*old(economics), *old(pool), amount) is None
                &&& *final(economics) == *old(economics)
                &&& *final(pool) == *old(pool)
                &&& *final(user_stake) == *old(user_stake)
            },
        },
{
    if !pool.is_active {
        assert(stake_outcome(*economics, *pool, *user_stake, user, pool_id, bump, amount, 0i64)
            == Err::<(TokenEconomics, StakingPool, UserStake), EconomicsError>(
            EconomicsError::PoolNotActive,
        ));
        return Err(OperationError::Economics(EconomicsError::PoolNotActive));
    }
    if economics.is_paused {
        assert(stake_outcome(*economics, *pool, *user_stake, user, pool_id, bump, amount, 0i64)
            == Err::<(TokenEconomics, StakingPool, UserStake), EconomicsError>(
            EconomicsError::SystemPaused,
        ));
        return Err(OperationError::Economics(EconomicsError::SystemPaused));
    }
    if amount < economics.min_stake_amount {
        assert(stake_outcome(*economics, *pool, *user_stake, user, pool_id, bump, amount, 0i64)
            == Err::<(TokenEconomics, StakingPool, UserStake), EconomicsError>(
            EconomicsError::BelowMinimumStake,
        ));
        return Err(OperationError::Economics(EconomicsError::BelowMinimumStake));
    }
    match unix_timestamp() {
        Ok(now) => match stake_tokens_at(
            economics,
            pool,
            user_stake,
            user,
            pool_id,
            bump,
            amount,
            now,
        ) {
            Ok(done) => Ok(done),
            Err(rule) => Err(OperationError::Economics(rule)),
        },
        Err(e) => Err(OperationError::Clock(e)),
    }
}

/// The rule, if any, that turns a withdrawal away before the accumulator is
/// consulted. The rules are tried in the order listed.
pub open spec fn unstake_rejection(
    economics: TokenEconomics,
    pool: StakingPool,
    user_stake: UserStake,
    user: Pubkey,
    amount: u64,
    now: i64,
) -> Option<EconomicsError> {
    if user_stake.user != user {
        Some(EconomicsError::Unauthorized)
    } else if economics.emergency_mode {
        Some(EconomicsError::EmergencyMode)
    } else if user_stake.total_staked == 0 {
        Some(EconomicsError::NoStakeToUnstake)
    } else if now - user_stake.last_stake_time < pool.min_stake_period {
        Some(EconomicsError::MinimumStakePeriodNotMet)
    } else if amount > user_stake.total_staked {
        Some(EconomicsError::InsufficientStake)
    } else {
        None
    }
}

/// The amount a withdrawal request stands for: a request of zero asks for
/// the whole principal.
pub open spec fn unstake_amount(user_stake: UserStake, amount: u64) -> u64 {
    if amount == 0 {
        user_stake.total_staked
    } else {
        amount
    }
}

/// The records as a withdrawal at time `now` leaves them, or the reason it is
/// rejected.
///
/// The pool is accrued to `now`; what the position earned until then is
/// moved into its pending rewards, where it stays until claimed; the amount
/// is taken from the position, the pool and the system total; a position
/// that is emptied stops counting as an active staker; and the position's
/// debt is set to what its remaining principal is entitled to. If any of the
/// quantities to be stored does not fit its width, or a total or a staker
/// count would drop below zero, the withdrawal is rejected as an overflow.
pub open spec fn unstake_outcome(
    economics: TokenEconomics,
    pool: StakingPool,
    user_stake: UserStake,
    user: Pubkey,
    amount: u64,
    now: i64,
) -> Result<(TokenEconomics, StakingPool, UserStake), EconomicsError> {
    let per_share = accrued_reward_per_share(economics, pool, now);
    let taken = unstake_amount(user_stake, amount);
    let remaining = user_stake.total_staked - taken;
    let left: int = if remaining == 0 { 1 } else { 0 };
    let pending = user_stake.pending_rewards + pending_reward(
        user_stake.total_staked as int,
        per_share,
        user_stake.reward_debt as int,
    );
    match unstake_rejection(economics, pool, user_stake, user, amount, now) {
        Some(rule) => Err(rule),
        None => if per_share > u64::MAX || reward_debt_for(
            user_stake.total_staked as int,
            per_share,
        ) > u64::MAX || pending > u64::MAX || pool.active_stakers < left
            || economics.active_stakers < left || pool.total_staked < taken
            || economics.total_staked < taken {
            Err(EconomicsError::MathOverflow)
        } else {
            Ok(
                (
                    TokenEconomics {
                        total_staked: (economics.total_staked - taken) as u64,
                        active_stakers: (economics.active_stakers - left) as u64,
                        last_reward_update_time: now,
                        ..economics
                    },
                    StakingPool {
                        total_staked: (pool.total_staked - taken) as u64,
                        active_stakers: (pool.active_stakers - left) as u32,
                        accumulated_reward_per_token: per_share as u64,
                        ..pool
                    },
                    UserStake {
                        total_staked: remaining as u64,
                        pending_rewards: pending as u64,
                        reward_debt: reward_debt_for(remaining, per_share) as u64,
                        ..user_stake
                    },
                ),
            )
        },
    }
}

/// Withdraws principal for `user` at time `now`; an `amount` of zero
/// withdraws all of it.
///
/// On success the three records are replaced by what [`unstake_outcome`]
/// gives, and the caller is handed the event to publish and the transfer of
/// the withdrawn amount from the stake vault to the user, authorized by the
/// system. On rejection nothing changes.
pub fn unstake_tokens_at(
    economics: &mut TokenEconomics,
    pool: &mut StakingPool,
    user_stake: &mut UserStake,
    user: Pubkey,
    amount: u64,
    now: i64,
) -> (r: Result<(UnstakeEvent, TransferRequest), EconomicsError>)
    ensures
        match unstake_outcome(*old(economics), *old(pool), *old(user_stake), user, amount, now) {
            Ok((economics_after, pool_after, stake_after)) => {
                &&& r == Ok::<(UnstakeEvent, TransferRequest), EconomicsError>(
                    (
                        UnstakeEvent {
                            user,
                            pool_id: old(user_stake).pool_id,
                            amount: unstake_amount(*old(user_stake), amount),
                            remaining_stake: stake_after.total_staked,
                        },
                        TransferRequest::withdrawal(unstake_amount(*old(user_stake), amount)),
                    ),
                )
                &&& *final(economics) == economics_after
                &&& *final(pool) == pool_after
                &&& *final(user_stake) == stake_after
            },
            Err(rule) => {
                &&& r == Err::<(UnstakeEvent, TransferRequest), EconomicsError>(rule)
                &&& *final(economics) == *old(economics)
                &&& *final(pool) == *old(pool)
                &&& *final(user_stake) == *old(user_stake)
            },
        },
        r is Ok ==> final(user_stake).reward_debt == reward_debt_for(
            final(user_stake).total_staked as int,
            final(pool).accumulated_reward_per_token as int,
        ),
        r is Ok ==> final(user_stake).pending_rewards >= old(user_stake).pending_rewards,
        old(pool).total_staked <= old(pool).max_capacity ==> final(pool).total_staked
            <= final(pool).max_capacity,
        final(pool).accumulated_reward_per_token >= old(pool).accumulated_reward_per_token,
        old(economics).well_formed() ==> final(economics).well_formed(),
        old(pool).well_formed() ==> final(pool).well_formed(),
{
    if !same_key(&user_stake.user, &user) {
        return Err(EconomicsError::Unauthorized);
    }
    if economics.emergency_mode {
        return Err(EconomicsError::EmergencyMode);
    }
    if user_stake.total_staked == 0 {
        return Err(EconomicsError::NoStakeToUnstake);
    }
    let held: i128 = now as i128 - user_stake.last_stake_time as i128;
    if held < pool.min_stake_period as i128 {
        return Err(EconomicsError::MinimumStakePeriodNotMet);
    }
    let taken: u64 = if amount == 0 {
        user_stake.total_staked
    } else {
        amount
    };
    if taken > user_stake.total_staked {
        return Err(EconomicsError::InsufficientStake);
    }
    proof {
        lemma_reward_per_share_delta_nonnegative(
            economics.reward_rate_per_second as int,
            now - economics.last_reward_update_time,
            pool.reward_multiplier as int,
            pool.total_staked as int,
        );
    }
    let per_share: u64 = match accrued_per_share(economics, pool, now) {
        Ok(v) => v,
        Err(e) => {
            return Err(e);
        },
    };
    let earned: u64 = match pending_at(user_stake.total_staked, per_share, user_stake.reward_debt) {
        Ok(v) => v,
        Err(e) => {
            return Err(e);
        },
    };
    let pending: u64 = match user_stake.pending_rewards.checked_add(earned) {
        Some(v) => v,
        None => {
            return Err(EconomicsError::MathOverflow);
        },
    };
    let remaining: u64 = user_stake.total_staked - taken;
    let mut pool_stakers: u32 = pool.active_stakers;
    let mut system_stakers: u64 = economics.active_stakers;
    if remaining == 0 {
        pool_stakers = match pool.active_stakers.checked_sub(1) {
            Some(v) => v,
            None => {
                return Err(EconomicsError::MathOverflow);
            },
        };
        system_stakers = match economics.active_stakers.checked_sub(1) {
            Some(v) => v,
            None => {
                return Err(EconomicsError::MathOverflow);
            },
        };
    }
    proof {
        lemma_reward_debt_monotone(
            remaining as int,
            user_stake.total_staked as int,
            per_share as int,
        );
    }
    let debt: u64 = match debt_at(remaining, per_share) {
        Ok(v) => v,
        Err(e) => {
            return Err(e);
        },
    };
    let pool_total: u64 = match pool.total_staked.checked_sub(taken) {
        Some(v) => v,
        None => {
            return Err(EconomicsError::MathOverflow);
        },
    };
    let system_total: u64 = match economics.total_staked.checked_sub(taken) {
        Some(v) => v,
        None => {
            return Err(EconomicsError::MathOverflow);
        },
    };

    user_stake.pending_rewards = pending;
    user_stake.total_staked = remaining;
    user_stake.reward_debt = debt;
    pool.accumulated_reward_per_token = per_share;
    pool.active_stakers = pool_stakers;
    pool.total_staked = pool_total;
    economics.last_reward_update_time = now;
    economics.active_stakers = system_stakers;
    economics.total_staked = system_total;
    Ok(
        (
            UnstakeEvent {
                user,
                pool_id: user_stake.pool_id,
                amount: taken,
                remaining_stake: remaining,
            },
            TransferRequest {
                from: Holding::StakeVault,
                to: Holding::UserStakeAccount,
                authority: TransferAuthority::System,
                amount: taken,
            },
        ),
    )
}

/// The rule, if any, that turns a withdrawal away before the clock is
/// consulted.
pub open spec fn unstake_early_rejection(
    economics: TokenEconomics,
    user_stake: UserStake,
    user: Pubkey,
) -> Option<EconomicsError> {
    if user_stake.user != user {
        Some(EconomicsError::Unauthorized)
    } else if economics.emergency_mode {
        Some(EconomicsError::EmergencyMode)
    } else {
        None
    }
}

/// Withdraws principal for `user` at the time the clock shows.
///
/// A caller who does not own the position and a system in emergency mode are
/// rejected without reading the clock. If the clock then cannot be read, its
/// error is passed on. Otherwise the call ends as [`unstake_tokens_at`] does
/// for the time that was read, which on success is the tick the
/// configuration record then shows. Nothing changes unless the result is
/// `Ok`.
pub fn unstake_tokens(
    economics: &mut TokenEconomics,
    pool: &mut StakingPool,
    user_stake: &mut UserStake,
    user: Pubkey,
    amount: u64,
) -> (r: Result<(UnstakeEvent, TransferRequest), OperationError>)
    ensures
        unstake_early_rejection(*old(economics), *old(user_stake), user) matches Some(rule) ==> r
            == Err::<(UnstakeEvent, TransferRequest), OperationError>(
            OperationError::Economics(rule),
        ),
        match r {
            Ok((event, transfer)) => {
                &&& unstake_outcome(
                    *old(economics),
                    *old(pool),
                    *old(user_stake),
                    user,
                    amount,
                    final(economics).last_reward_update_time,
                ) == Ok::<(TokenEconomics, StakingPool, UserStake), EconomicsError>(
                    (*final(economics), *final(pool), *final(user_stake)),
                )
                &&& event == (UnstakeEvent {
                    user,
                    pool_id: old(user_stake).pool_id,
                    amount: unstake_amount(*old(user_stake), amount),
                    remaining_stake: final(user_stake).total_staked,
                })
                &&& transfer == TransferRequest::withdrawal(
                    unstake_amount(*old(user_stake), amount),
                )
            },
            Err(OperationError::Economics(rule)) => {
                &&& exists|now: i64| #[trigger]
                    unstake_outcome(
                        *old(economics),
                        *old(pool),
                        *old(user_stake),
                        user,
                        amount,
                        now,
                    ) == Err::<(TokenEconomics, StakingPool, UserStake), EconomicsError>(rule)
                &&& *final(economics) == *old(economics)
                &&& *final(pool) == *old(pool)
                &&& *final(user_stake) == *old(user_stake)
            },
            Err(OperationError::Clock(_)) => {
                &&& unstake_early_rejection(*old(economics), *old(user_stake), user) is None
                &&& *final(economics) == *old(economics)
                &&& *final(pool) == *old(pool)
                &&& *final(user_stake) == *old(user_stake)
            },
        },
{
    if !same_key(&user_stake.user, &user) {
        assert(unstake_outcome(*economics, *pool, *user_stake, user, amount, 0i64) == Err::<
            (TokenEconomics, StakingPool, UserStake),
            EconomicsError,
        >(EconomicsError::Unauthorized));
        return Err(OperationError::Economics(EconomicsError::Unauthorized));
    }
    if economics.emergency_mode {
        assert(unstake_outcome(*economics, *pool, *user_stake, user, amount, 0i64) == Err::<
            (TokenEconomics, StakingPool, UserStake),
            EconomicsError,
        >(EconomicsError::EmergencyMode));
        return Err(OperationError::Economics(EconomicsError::EmergencyMode));
    }
    match unix_timestamp() {
        Ok(now) => match unstake_tokens_at(economics, pool, user_stake, user, amount, now) {
            Ok(done) => Ok(done),
            Err(rule) => Err(OperationError::Economics(rule)),
        },
        Err(e) => Err(OperationError::Clock(e)),
    }
}

/// The records as an emergency withdrawal leaves them, or the reason it is
/// rejected.
///
/// The whole principal leaves the position, its pool and the system total;
/// the position stops counting as an active staker in the pool and in the
/// system; and the position's pending rewards and debt are forfeited. Neither
/// the clock, nor the pool's accumulator, nor the time of the last accrual
/// tick, nor the minimum holding period is read or written. A total or a
/// staker count that would drop below zero is reported as an overflow.
pub open spec fn emergency_unstake_outcome(
    economics: TokenEconomics,
    pool: StakingPool,
    user_stake: UserStake,
    user: Pubkey,
) -> Result<(TokenEconomics, StakingPool, UserStake), EconomicsError> {
    if user_stake.user != user {
        Err(EconomicsError::Unauthorized)
    } else if !economics.emergency_mode {
        Err(EconomicsError::NotInEmergencyMode)
    } else if user_stake.total_staked == 0 {
        Err(EconomicsError::NoStakeToUnstake)
    } else if economics.total_staked < user_stake.total_staked || pool.total_staked
        < user_stake.total_staked || economics.active_stakers < 1 || pool.active_stakers < 1 {
        Err(EconomicsError::MathOverflow)
    } else {
        Ok(
            (
                TokenEconomics {
                    total_staked: (economics.total_staked - user_stake.total_staked) as u64,
                    active_stakers: (economics.active_stakers - 1) as u64,
                    ..economics
                },
                StakingPool {
                    total_staked: (pool.total_staked - user_stake.total_staked) as u64,
                    active_stakers: (pool.active_stakers - 1) as u32,
                    ..pool
                },
                UserStake { total_staked: 0, pending_rewards: 0, reward_debt: 0, ..user_stake },
            ),
        )
    }
}

/// Withdraws the whole principal of `user` from its pool while the system is
/// in emergency mode, forfeiting unclaimed rewards.
///
/// On success the three records are replaced by what
/// [`emergency_unstake_outcome`] gives, and the caller is handed the event to
/// publish and the transfer of the principal from the stake vault to the
/// user, authorized by the system. On rejection nothing changes.
pub fn emergency_unstake(
    economics: &mut TokenEconomics,
    pool: &mut StakingPool,
    user_stake: &mut UserStake,
    user: Pubkey,
) -> (r: Result<(EmergencyUnstakeEvent, TransferRequest), EconomicsError>)
    ensures
        match emergency_unstake_outcome(*old(economics), *old(pool), *old(user_stake), user) {
            Ok((economics_after, pool_after, stake_after)) => {
                &&& r == Ok::<(EmergencyUnstakeEvent, TransferRequest), EconomicsError>(
                    (
                        EmergencyUnstakeEvent { user, amount: old(user_stake).total_staked },
                        TransferRequest::withdrawal(old(user_stake).total_staked),
                    ),
                )
                &&& *final(economics) == economics_after
                &&& *final(pool) == pool_after
                &&& *final(user_stake) == stake_after
            },
            Err(rule) => {
                &&& r == Err::<(EmergencyUnstakeEvent, TransferRequest), EconomicsError>(rule)
                &&& *final(economics) == *old(economics)
                &&& *final(pool) == *old(pool)
                &&& *final(user_stake) == *old(user_stake)
            },
        },
        r is Ok ==> final(user_stake).pending_rewards == 0 && final(user_stake).total_staked == 0
            && final(user_stake).reward_debt == 0,
        final(pool).accumulated_reward_per_token == old(pool).accumulated_reward_per_token,
        final(economics).last_reward_update_time == old(economics).last_reward_update_time,
        old(economics).well_formed() ==> final(economics).well_formed(),
        old(pool).well_formed() ==> final(pool).well_formed(),
{
    if !same_key(&user_stake.user, &user) {
        return Err(EconomicsError::Unauthorized);
    }
    if !economics.emergency_mode {
        return Err(EconomicsError::NotInEmergencyMode);
    }
    if user_stake.total_staked == 0 {
        return Err(EconomicsError::NoStakeToUnstake);
    }
    let amount: u64 = user_stake.total_staked;
    let system_total: u64 = match economics.total_staked.checked_sub(amount) {
        Some(v) => v,
        None => {
            return Err(EconomicsError::MathOverflow);
        },
    };
    let pool_total: u64 = match pool.total_staked.checked_sub(amount) {
        Some(v) => v,
        None => {
            return Err(EconomicsError::MathOverflow);
        },
    };
    let system_stakers: u64 = match economics.active_stakers.checked_sub(1) {
        Some(v) => v,
        None => {
            return Err(EconomicsError::MathOverflow);
        },
    };
    let pool_stakers: u32 = match pool.active_stakers.checked_sub(1) {
        Some(v) => v,
        None => {
            return Err(EconomicsError::MathOverflow);
        },
    };
    user_stake.total_staked = 0;
    user_stake.pending_rewards = 0;
    user_stake.reward_debt = 0;
    pool.total_staked = pool_total;
    pool.active_stakers = pool_stakers;
    economics.total_staked = system_total;
    economics.active_stakers = system_stakers;
    Ok(
        (
            EmergencyUnstakeEvent { user, amount },
            TransferRequest {
                from: Holding::StakeVault,
                to: Holding::UserStakeAccount,
                authority: TransferAuthority::System,
                amount,
            },
        ),
    )
}

} // verus!
