//! Creating the configuration record and the pools.

use crate::clock::unix_timestamp;
use crate::errors::EconomicsError;
use crate::errors::OperationError;
use crate::events::PoolCreatedEvent;
use crate::keys::same_key;
use crate::state::StakingPool;
use crate::state::TokenEconomics;
use crate::state::MAX_FEE_BPS;
use crate::state::MAX_REWARD_MULTIPLIER;
use anchor_lang::prelude::Pubkey;
use vstd::prelude::*;

verus! {

/// The addresses a configuration record is created with.
#[derive(Clone, Copy, Debug, PartialEq, Eq)]
pub struct EconomicsAccounts {
    /// Identity allowed to perform admin operations.
    pub authority: Pubkey,
    /// Asset that is staked.
    pub stake_mint: Pubkey,
    /// Asset that rewards are paid in.
    pub reward_mint: Pubkey,
    /// Holding that collects governance fees.
    pub treasury_vault: Pubkey,
    /// Holding that keeps the staked principal.
    pub stake_vault: Pubkey,
    /// Holding that rewards are paid from.
    pub reward_vault: Pubkey,
    /// Bump seed of the record's address.
    pub bump: u8,
}

/// The rule, if any, that a proposed configuration violates. The rules are
/// tried in the order listed.
pub open spec fn economics_rejection(
    governance_fee_bps: u16,
    min_stake_amount: u64,
    max_stake_amount: u64,
) -> Option<EconomicsError> {
    if governance_fee_bps > MAX_FEE_BPS {
        Some(EconomicsError::InvalidFeeRate)
    } else if min_stake_amount == 0 {
        Some(EconomicsError::InvalidStakeAmount)
    } else if max_stake_amount < min_stake_amount {
        Some(EconomicsError::InvalidStakeAmount)
    } else {
        None
    }
}

/// The configuration record as it is created at time `now`: the given
/// addresses and parameters, nothing staked or distributed, no flags set.
pub open spec fn initial_economics(
    accounts: EconomicsAccounts,
    reward_rate_per_second: u64,
    governance_fee_bps: u16,
    min_stake_amount: u64,
    max_stake_amount: u64,
    now: i64,
) -> TokenEconomics {
    TokenEconomics {
        authority: accounts.authority,
        stake_mint: accounts.stake_mint,
        reward_mint: accounts.reward_mint,
        treasury_vault: accounts.treasury_vault,
        stake_vault: accounts.stake_vault,
        reward_vault: accounts.reward_vault,
        reward_rate_per_second,
        governance_fee_bps,
        min_stake_amount,
        max_stake_amount,
        total_staked: 0,
        total_rewards_distributed: 0,
        last_reward_update_time: now,
        accumulated_reward_per_token: 0,
        active_stakers: 0,
        is_paused: false,
        emergency_mode: false,
        created_at: now,
        bump: accounts.bump,
    }
}

/// Creates the configuration record at time `now`.
///
/// The fee must be at most 10000 basis points, the minimum stake positive and
/// the maximum stake no smaller than the minimum.
pub fn initialize_economics_at(
    accounts: EconomicsAccounts,
    reward_rate_per_second: u64,
    governance_fee_bps: u16,
    min_stake_amount: u64,
    max_stake_amount: u64,
    now: i64,
) -> (r: Result<TokenEconomics, EconomicsError>)
    ensures
        r == match economics_rejection(governance_fee_bps, min_stake_amount, max_stake_amount) {
            Some(rule) => Err::<TokenEconomics, EconomicsError>(rule),
            None => Ok(
                initial_economics(
                    accounts,
                    reward_rate_per_second,
                    governance_fee_bps,
                    min_stake_amount,
                    max_stake_amount,
                    now,
                ),
            ),
        },
        r matches Ok(economics) ==> economics.well_formed(),
{
    if governance_fee_bps > MAX_FEE_BPS {
        return Err(EconomicsError::InvalidFeeRate);
    }
    if min_stake_amount == 0 {
        return Err(EconomicsError::InvalidStakeAmount);
    }
    if max_stake_amount < min_stake_amount {
        return Err(EconomicsError::InvalidStakeAmount);
    }
    Ok(
        TokenEconomics {
            authority: accounts.authority,
            stake_mint: accounts.stake_mint,
            reward_mint: accounts.reward_mint,
            treasury_vault: accounts.treasury_vault,
            stake_vault: accounts.stake_vault,
            reward_vault: accounts.reward_vault,
            reward_rate_per_second,
            governance_fee_bps,
            min_stake_amount,
            max_stake_amount,
            total_staked: 0,
            total_rewards_distributed: 0,
            last_reward_update_time: now,
            accumulated_reward_per_token: 0,
            active_stakers: 0,
            is_paused: false,
            emergency_mode: false,
            created_at: now,
            bump: accounts.bump,
        },
    )
}

/// Creates the configuration record at the time the clock shows.
///
/// An inadmissible configuration is rejected without reading the clock. If
/// the clock then cannot be read, its error is passed on. Otherwise the
/// record is the one [`initialize_economics_at`] creates for the time that
/// was read.
pub fn initialize_economics(
    accounts: EconomicsAccounts,
    reward_rate_per_second: u64,
    governance_fee_bps: u16,
    min_stake_amount: u64,
    max_stake_amount: u64,
) -> (r: Result<TokenEconomics, OperationError>)
    ensures
        match r {
            Ok(economics) => {
                &&& economics_rejection(governance_fee_bps, min_stake_amount, max_stake_amount)
                    is None
                &&& economics == initial_economics(
                    accounts,
                    reward_rate_per_second,
                    governance_fee_bps,
                    min_stake_amount,
                    max_stake_amount,
                    economics.created_at,
                )
                &&& economics.well_formed()
            },
            Err(OperationError::Economics(rule)) => economics_rejection(
                governance_fee_bps,
                min_stake_amount,
                max_stake_amount,
            ) == Some(rule),
            Err(OperationError::Clock(_)) => economics_rejection(
                governance_fee_bps,
                min_stake_amount,
                max_stake_amount,
            ) is None,
        },
{
    if governance_fee_bps > MAX_FEE_BPS {
        return Err(OperationError::Economics(EconomicsError::InvalidFeeRate));
    }
    if min_stake_amount == 0 {
        return Err(OperationError::Economics(EconomicsError::InvalidStakeAmount));
    }
    if max_stake_amount < min_stake_amount {
        return Err(OperationError::Economics(EconomicsError::InvalidStakeAmount));
    }
    match unix_timestamp() {
        Ok(now) => match initialize_economics_at(
            accounts,
            reward_rate_per_second,
            governance_fee_bps,
            min_stake_amount,
            max_stake_amount,
            now,
        ) {
            Ok(economics) => Ok(economics),
            Err(rule) => Err(OperationError::Economics(rule)),
        },
        Err(e) => Err(OperationError::Clock(e)),
    }
}

/// The rule, if any, that turns the creation of a pool away. The rules are
/// tried in the order listed.
pub open spec fn pool_rejection(
    economics: TokenEconomics,
    authority: Pubkey,
    reward_multiplier: u16,
    min_stake_period: i64,
) -> Option<EconomicsError> {
    if economics.authority != authority {
        Some(EconomicsError::Unauthorized)
    } else if economics.is_paused {
        Some(EconomicsError::SystemPaused)
    } else if reward_multiplier == 0 || reward_multiplier > MAX_REWARD_MULTIPLIER {
        Some(EconomicsError::InvalidMultiplier)
    } else if min_stake_period < 0 {
        Some(EconomicsError::InvalidStakePeriod)
    } else {
        None
    }
}

/// A pool as it is created at time `now`: the given parameters, nothing
/// staked, nothing accrued, active.
pub open spec fn initial_pool(
    economics_key: Pubkey,
    pool_id: u8,
    reward_multiplier: u16,
    min_stake_period: i64,
    max_capacity: u64,
    bump: u8,
    now: i64,
) -> StakingPool {
    StakingPool {
        pool_id,
        economics: economics_key,
        reward_multiplier,
        min_stake_period,
        max_capacity,
        total_staked: 0,
        active_stakers: 0,
        accumulated_reward_per_token: 0,
        created_at: now,
        is_active: true,
        bump,
    }
}

/// Creates a pool at time `now` on behalf of `authority`.
///
/// Only the system's authority may create pools, and only while the system is
/// not paused. The multiplier must lie in 1..=1000 percent and the minimum
/// holding period must not be negative. `economics_key` is the address of the
/// configuration record, which the pool refers back to.
pub fn create_staking_pool_at(
    economics: &TokenEconomics,
    economics_key: Pubkey,
    authority: Pubkey,
    pool_id: u8,
    reward_multiplier: u16,
    min_stake_period: i64,
    max_capacity: u64,
    bump: u8,
    now: i64,
) -> (r: Result<(StakingPool, PoolCreatedEvent), EconomicsError>)
    ensures
        r == match pool_rejection(*economics, authority, reward_multiplier, min_stake_period) {
            Some(rule) => Err::<(StakingPool, PoolCreatedEvent), EconomicsError>(rule),
            None => Ok(
                (
                    initial_pool(
                        economics_key,
                        pool_id,
                        reward_multiplier,
                        min_stake_period,
                        max_capacity,
                        bump,
                        now,
                    ),
                    PoolCreatedEvent { pool_id, reward_multiplier, min_stake_period, max_capacity },
                ),
            ),
        },
        r matches Ok((pool, _)) ==> pool.well_formed(),
{
    if !same_key(&economics.authority, &authority) {
        return Err(EconomicsError::Unauthorized);
    }
    if economics.is_paused {
        return Err(EconomicsError::SystemPaused);
    }
    if reward_multiplier == 0 || reward_multiplier > MAX_REWARD_MULTIPLIER {
        return Err(EconomicsError::InvalidMultiplier);
    }
    if min_stake_period < 0 {
        return Err(EconomicsError::InvalidStakePeriod);
    }
    Ok(
        (
            StakingPool {
                pool_id,
                economics: economics_key,
                reward_multiplier,
                min_stake_period,
                max_capacity,
                total_staked: 0,
                active_stakers: 0,
                accumulated_reward_per_token: 0,
                created_at: now,
                is_active: true,
                bump,
            },
            PoolCreatedEvent { pool_id, reward_multiplier, min_stake_period, max_capacity },
        ),
    )
}

/// Creates a pool at the time the clock shows.
///
/// A request that breaks a rule is rejected without reading the clock. If the
/// clock then cannot be read, its error is passed on. Otherwise the pool is
/// the one [`create_staking_pool_at`] creates for the time that was read.
pub fn create_staking_pool(
    economics: &TokenEconomics,
    economics_key: Pubkey,
    authority: Pubkey,
    pool_id: u8,
    reward_multiplier: u16,
    min_stake_period: i64,
    max_capacity: u64,
    bump: u8,
) -> (r: Result<(StakingPool, PoolCreatedEvent), OperationError>)
    ensures
        match r {
            Ok((pool, event)) => {
                &&& pool_rejection(*economics, authority, reward_multiplier, min_stake_period)
                    is None
                &&& pool == initial_pool(
                    economics_key,
                    pool_id,
                    reward_multiplier,
                    min_stake_period,
                    max_capacity,
                    bump,
                    pool.created_at,
                )
                &&& event == (PoolCreatedEvent {
                    pool_id,
                    reward_multiplier,
                    min_stake_period,
                    max_capacity,
                })
                &&& pool.well_formed()
            },
            Err(OperationError::Economics(rule)) => pool_rejection(
                *economics,
                authority,
                reward_multiplier,
                min_stake_period,
            ) == Some(rule),
            Err(OperationError::Clock(_)) => pool_rejection(
                *economics,
                authority,
                reward_multiplier,
                min_stake_period,
            ) is None,
        },
{
    if !same_key(&economics.authority, &authority) {
        return Err(OperationError::Economics(EconomicsError::Unauthorized));
    }
    if economics.is_paused {
        return Err(OperationError::Economics(EconomicsError::SystemPaused));
    }
    if reward_multiplier == 0 || reward_multiplier > MAX_REWARD_MULTIPLIER {
        return Err(OperationError::Economics(EconomicsError::InvalidMultiplier));
    }
    if min_stake_period < 0 {
        return Err(OperationError::Economics(EconomicsError::InvalidStakePeriod));
    }
    match unix_timestamp() {
        Ok(now) => match create_staking_pool_at(
            economics,
            economics_key,
            authority,
            pool_id,
            reward_multiplier,
            min_stake_period,
            max_capacity,
            bump,
            now,
        ) {
            Ok(created) => Ok(created),
            Err(rule) => Err(OperationError::Economics(rule)),
        },
        Err(e) => Err(OperationError::Clock(e)),
    }
}

} // verus!
