//! Why an operation was rejected.

use anchor_lang::prelude::ProgramError;
use vstd::prelude::*;

verus! {

/// A rule of the staking system that a request violated.
#[derive(Clone, Copy, Debug, PartialEq, Eq, Structural)]
pub enum EconomicsError {
    /// The governance fee exceeds 10000 basis points.
    InvalidFeeRate,
    /// The stake bounds are inconsistent: the minimum is zero or the maximum
    /// lies below the minimum.
    InvalidStakeAmount,
    /// The reward multiplier is zero or above 1000.
    InvalidMultiplier,
    /// The minimum stake period is negative.
    InvalidStakePeriod,
    /// The system is paused.
    SystemPaused,
    /// The system is in emergency mode.
    EmergencyMode,
    /// The system is not in emergency mode.
    NotInEmergencyMode,
    /// The stake would exceed the pool's capacity.
    PoolCapacityExceeded,
    /// The pool is not active.
    PoolNotActive,
    /// The amount is below the minimum stake.
    BelowMinimumStake,
    /// The user's stake would exceed the per-user maximum.
    ExceedsMaximumStake,
    /// More was asked for than is staked.
    InsufficientStake,
    /// Nothing is staked.
    NoStakeToUnstake,
    /// The stake has not been held for the pool's minimum period.
    MinimumStakePeriodNotMet,
    /// No rewards are due.
    NoRewardsToClaim,
    /// A value does not fit the width it is stored in.
    MathOverflow,
    /// The caller is not the identity the operation requires.
    Unauthorized,
}

impl EconomicsError {
    /// The message that accompanies the error.
    pub fn message(&self) -> (text: &'static str)
        ensures
            text@ == self.message_text(),
    {
        match self {
            EconomicsError::InvalidFeeRate => "Invalid fee rate - must be <= 10000 basis points",
            EconomicsError::InvalidStakeAmount => "Invalid stake amount configuration",
            EconomicsError::InvalidMultiplier => "Invalid reward multiplier",
            EconomicsError::InvalidStakePeriod => "Invalid stake period",
            EconomicsError::SystemPaused => "System is currently paused",
            EconomicsError::EmergencyMode => "System is in emergency mode",
            EconomicsError::NotInEmergencyMode => "Not in emergency mode",
            EconomicsError::PoolCapacityExceeded => "Pool capacity exceeded",
            EconomicsError::PoolNotActive => "Pool is not active",
            EconomicsError::BelowMinimumStake => "Amount below minimum stake requirement",
            EconomicsError::ExceedsMaximumStake => "Amount exceeds maximum stake limit",
            EconomicsError::InsufficientStake => "Insufficient staked amount",
            EconomicsError::NoStakeToUnstake => "No stake to unstake",
            EconomicsError::MinimumStakePeriodNotMet => "Minimum stake period not met",
            EconomicsError::NoRewardsToClaim => "No rewards to claim",
            EconomicsError::MathOverflow => "Mathematical overflow occurred",
            EconomicsError::Unauthorized => "Unauthorized access",
        }
    }

    /// The text of [`EconomicsError::message`].
    pub open spec fn message_text(&self) -> Seq<char> {
        match self {
            EconomicsError::InvalidFeeRate => "Invalid fee rate - must be <= 10000 basis points"@,
            EconomicsError::InvalidStakeAmount => "Invalid stake amount configuration"@,
            EconomicsError::InvalidMultiplier => "Invalid reward multiplier"@,
            EconomicsError::InvalidStakePeriod => "Invalid stake period"@,
            EconomicsError::SystemPaused => "System is currently paused"@,
            EconomicsError::EmergencyMode => "System is in emergency mode"@,
            EconomicsError::NotInEmergencyMode => "Not in emergency mode"@,
            EconomicsError::PoolCapacityExceeded => "Pool capacity exceeded"@,
            EconomicsError::PoolNotActive => "Pool is not active"@,
            EconomicsError::BelowMinimumStake => "Amount below minimum stake requirement"@,
            EconomicsError::ExceedsMaximumStake => "Amount exceeds maximum stake limit"@,
            EconomicsError::InsufficientStake => "Insufficient staked amount"@,
            EconomicsError::NoStakeToUnstake => "No stake to unstake"@,
            EconomicsError::MinimumStakePeriodNotMet => "Minimum stake period not met"@,
            EconomicsError::NoRewardsToClaim => "No rewards to claim"@,
            EconomicsError::MathOverflow => "Mathematical overflow occurred"@,
            EconomicsError::Unauthorized => "Unauthorized access"@,
        }
    }
}

/// Why an operation that consults the clock did not go through.
#[derive(Debug, PartialEq, Eq)]
pub enum OperationError {
    /// A rule of the staking system was violated.
    Economics(EconomicsError),
    /// The clock could not be read; the runtime's error is passed on.
    Clock(ProgramError),
}

} // verus!
