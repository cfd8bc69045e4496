//! The operations of the staking system.
//!
//! An operation that depends on the time comes in two forms. The form whose
//! name ends in `_at` takes the current time as an argument and is specified
//! exactly. The form without the suffix reads the clock itself and then
//! behaves as the first form does for the time it read.

pub mod admin;
pub mod initialize;
pub mod rewards;
pub mod stake;

pub use admin::fund_rewards;
pub use admin::set_emergency_mode;
pub use admin::set_pause_state;
pub use admin::update_reward_rate;
pub use initialize::create_staking_pool;
pub use initialize::create_staking_pool_at;
pub use initialize::initialize_economics;
pub use initialize::initialize_economics_at;
pub use rewards::claim_rewards;
pub use rewards::claim_rewards_at;
pub use stake::emergency_unstake;
pub use stake::stake_tokens;
pub use stake::stake_tokens_at;
pub use stake::unstake_tokens;
pub use stake::unstake_tokens_at;
