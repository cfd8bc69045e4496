//! Records of what an operation did, returned to the caller for publication.

use anchor_lang::prelude::Pubkey;
use vstd::prelude::*;

verus! {

/// A pool was created.
#[derive(Clone, Copy, Debug, PartialEq, Eq)]
pub struct PoolCreatedEvent {
    pub pool_id: u8,
    pub reward_multiplier: u16,
    pub min_stake_period: i64,
    pub max_capacity: u64,
}

/// Principal was staked.
#[derive(Clone, Copy, Debug, PartialEq, Eq)]
pub struct StakeEvent {
    pub user: Pubkey,
    pub pool_id: u8,
    /// Amount added by this stake.
    pub amount: u64,
    /// The user's principal in the pool afterwards.
    pub total_user_stake: u64,
    /// The pool's principal afterwards.
    pub total_pool_stake: u64,
}

/// Principal was withdrawn.
#[derive(Clone, Copy, Debug, PartialEq, Eq)]
pub struct UnstakeEvent {
    pub user: Pubkey,
    pub pool_id: u8,
    /// Amount withdrawn.
    pub amount: u64,
    /// The user's principal in the pool afterwards.
    pub remaining_stake: u64,
}

/// Rewards were claimed.
#[derive(Clone, Copy, Debug, PartialEq, Eq)]
pub struct RewardClaimEvent {
    pub user: Pubkey,
    pub pool_id: u8,
    /// Everything that was due, before the fee.
    pub gross_reward: u64,
    /// The part that goes to the treasury.
    pub governance_fee: u64,
    /// The part that goes to the user.
    pub net_reward: u64,
}

/// Principal was withdrawn in emergency mode, forfeiting rewards.
#[derive(Clone, Copy, Debug, PartialEq, Eq)]
pub struct EmergencyUnstakeEvent {
    pub user: Pubkey,
    pub amount: u64,
}

/// The pause flag was set.
#[derive(Clone, Copy, Debug, PartialEq, Eq)]
pub struct PauseStateChangedEvent {
    pub is_paused: bool,
}

/// The emergency flag was set.
#[derive(Clone, Copy, Debug, PartialEq, Eq)]
pub struct EmergencyModeChangedEvent {
    pub emergency_mode: bool,
}

/// The emission rate was changed.
#[derive(Clone, Copy, Debug, PartialEq, Eq)]
pub struct RewardRateUpdatedEvent {
    pub new_rate: u64,
}

/// The reward vault was topped up.
#[derive(Clone, Copy, Debug, PartialEq, Eq)]
pub struct RewardsFundedEvent {
    pub amount: u64,
}

} // verus!
