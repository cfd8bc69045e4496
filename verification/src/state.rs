//! The three kinds of record the accounting works on.

use anchor_lang::prelude::Pubkey;
use vstd::prelude::*;

verus! {

/// Highest governance fee, in basis points.
pub const MAX_FEE_BPS: u16 = 10000;

/// Highest reward multiplier, in percent.
pub const MAX_REWARD_MULTIPLIER: u16 = 1000;

/// The system-wide configuration and running totals.
#[derive(Clone, Copy, Debug, PartialEq, Eq)]
pub struct TokenEconomics {
    /// Identity allowed to perform admin operations.
    pub authority: Pubkey,
    /// Asset that is staked.
    pub stake_mint: Pubkey,
    /// Asset that rewards are paid in.
    pub reward_mint: Pubkey,
    /// Holding that collects governance fees.
    pub treasury_vault: Pubkey,
    /// Holding that keeps the staked principal.
    pub stake_vault: Pubkey,
    /// Holding that rewards are paid from.
    pub reward_vault: Pubkey,
    /// Base emission per second.
    pub reward_rate_per_second: u64,
    /// Fee taken from every claim, in basis points.
    pub governance_fee_bps: u16,
    /// Smallest amount a single stake may add.
    pub min_stake_amount: u64,
    /// Largest principal one user may hold in one pool.
    pub max_stake_amount: u64,
    /// Principal staked across all pools.
    pub total_staked: u64,
    /// Gross rewards claimed so far.
    pub total_rewards_distributed: u64,
    /// Time of the last accrual tick.
    pub last_reward_update_time: i64,
    /// Reserved system-wide accumulator.
    pub accumulated_reward_per_token: u64,
    /// Number of user stakes with nonzero principal.
    pub active_stakers: u64,
    /// Whether staking and claiming are suspended.
    pub is_paused: bool,
    /// Whether only emergency withdrawal is open.
    pub emergency_mode: bool,
    /// Time the record was created.
    pub created_at: i64,
    /// Bump seed of the record's address.
    pub bump: u8,
}

impl TokenEconomics {
    /// Bytes the record occupies in storage.
    pub const LEN: usize = 8 + 32 + 32 + 32 + 32 + 32 + 32 + 8 + 2 + 8 + 8 + 8 + 8 + 8 + 8 + 8
        + 1 + 1 + 8 + 1;

    /// The configuration is admissible: the fee is at most 100% and the stake
    /// bounds are positive and ordered.
    pub open spec fn well_formed(&self) -> bool {
        &&& self.governance_fee_bps <= MAX_FEE_BPS
        &&& self.min_stake_amount > 0
        &&& self.max_stake_amount >= self.min_stake_amount
    }
}

/// One staking pool.
#[derive(Clone, Copy, Debug, PartialEq, Eq)]
pub struct StakingPool {
    /// Identifier of the pool.
    pub pool_id: u8,
    /// Address of the configuration record the pool belongs to.
    pub economics: Pubkey,
    /// Reward multiplier in percent (100 = 1x).
    pub reward_multiplier: u16,
    /// Seconds a stake must be held before it can be withdrawn.
    pub min_stake_period: i64,
    /// Most principal the pool accepts.
    pub max_capacity: u64,
    /// Principal currently in the pool.
    pub total_staked: u64,
    /// Number of user stakes in the pool with nonzero principal.
    pub active_stakers: u32,
    /// Rewards accrued per staked unit, scaled by
    /// [`REWARD_PRECISION`](crate::utils::REWARD_PRECISION).
    pub accumulated_reward_per_token: u64,
    /// Time the pool was created.
    pub created_at: i64,
    /// Whether the pool accepts stakes.
    pub is_active: bool,
    /// Bump seed of the record's address.
    pub bump: u8,
}

impl StakingPool {
    /// Bytes the record occupies in storage.
    pub const LEN: usize = 8 + 1 + 32 + 2 + 8 + 8 + 8 + 4 + 8 + 8 + 1 + 1;

    /// The parameters are admissible and the pool is within its capacity.
    pub open spec fn well_formed(&self) -> bool {
        &&& 0 < self.reward_multiplier <= MAX_REWARD_MULTIPLIER
        &&& self.min_stake_period >= 0
        &&& self.total_staked <= self.max_capacity
    }
}

/// One user's position in one pool.
#[derive(Clone, Copy, Debug, PartialEq, Eq)]
pub struct UserStake {
    /// Owner of the position.
    pub user: Pubkey,
    /// Pool the position is in.
    pub pool_id: u8,
    /// Principal currently staked.
    pub total_staked: u64,
    /// Rewards settled but not yet claimed.
    pub pending_rewards: u64,
    /// Baseline against which newly earned rewards are measured.
    pub reward_debt: u64,
    /// Net rewards claimed over the position's lifetime.
    pub total_rewards_claimed: u64,
    /// Time of the first stake of the current holding.
    pub first_stake_time: i64,
    /// Time of the latest stake.
    pub last_stake_time: i64,
    /// Time of the latest claim.
    pub last_claim_time: i64,
    /// Bump seed of the record's address.
    pub bump: u8,
}

impl UserStake {
    /// Bytes the record occupies in storage.
    pub const LEN: usize = 8 + 32 + 1 + 8 + 8 + 8 + 8 + 8 + 8 + 8 + 1;

    /// A position that has never been staked into.
    pub open spec fn empty(user: Pubkey, pool_id: u8) -> UserStake {
        UserStake {
            user,
            pool_id,
            total_staked: 0,
            pending_rewards: 0,
            reward_debt: 0,
            total_rewards_claimed: 0,
            first_stake_time: 0,
            last_stake_time: 0,
            last_claim_time: 0,
            bump: 0,
        }
    }

    /// Creates a position that has never been staked into. The first stake
    /// into it sets its owner, pool and bump seed anew.
    pub fn new(user: Pubkey, pool_id: u8) -> (stake: UserStake)
        ensures
            stake == UserStake::empty(user, pool_id),
    {
        UserStake {
            user,
            pool_id,
            total_staked: 0,
            pending_rewards: 0,
            reward_debt: 0,
            total_rewards_claimed: 0,
            first_stake_time: 0,
            last_stake_time: 0,
            last_claim_time: 0,
            bump: 0,
        }
    }
}

} // verus!
