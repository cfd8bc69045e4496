//! Asset movements an operation asks its caller to carry out.
//!
//! The accounting never moves assets itself. An operation that succeeds
//! returns the transfers that belong to it; the caller executes them on the
//! token ledger and must discard the operation's changes if one of them
//! fails.

use vstd::prelude::*;

verus! {

/// A holding that takes part in a transfer.
#[derive(Clone, Copy, Debug, PartialEq, Eq, Structural)]
pub enum Holding {
    /// The user's own account of the stake asset.
    UserStakeAccount,
    /// The user's own account of the reward asset.
    UserRewardAccount,
    /// The authority's own account of the reward asset.
    AuthorityRewardAccount,
    /// The vault that keeps staked principal.
    StakeVault,
    /// The vault that rewards are paid from.
    RewardVault,
    /// The vault that collects governance fees.
    TreasuryVault,
}

/// Who authorizes a transfer.
#[derive(Clone, Copy, Debug, PartialEq, Eq, Structural)]
pub enum TransferAuthority {
    /// The external signer that owns the source holding.
    Owner,
    /// The system itself, for vaults in its own custody.
    System,
}

/// A request to move `amount` from one holding to another.
#[derive(Clone, Copy, Debug, PartialEq, Eq, Structural)]
pub struct TransferRequest {
    pub from: Holding,
    pub to: Holding,
    pub authority: TransferAuthority,
    pub amount: u64,
}

impl TransferRequest {
    /// Principal going from the user into the stake vault, signed by the user.
    pub open spec fn deposit(amount: u64) -> TransferRequest {
        TransferRequest {
            from: Holding::UserStakeAccount,
            to: Holding::StakeVault,
            authority: TransferAuthority::Owner,
            amount,
        }
    }

    /// Principal going from the stake vault back to the user, authorized by
    /// the system.
    pub open spec fn withdrawal(amount: u64) -> TransferRequest {
        TransferRequest {
            from: Holding::StakeVault,
            to: Holding::UserStakeAccount,
            authority: TransferAuthority::System,
            amount,
        }
    }

    /// Rewards going from the reward vault to the user, authorized by the
    /// system.
    pub open spec fn reward_payout(amount: u64) -> TransferRequest {
        TransferRequest {
            from: Holding::RewardVault,
            to: Holding::UserRewardAccount,
            authority: TransferAuthority::System,
            amount,
        }
    }

    /// The governance fee going from the reward vault to the treasury,
    /// authorized by the system.
    pub open spec fn fee_collection(amount: u64) -> TransferRequest {
        TransferRequest {
            from: Holding::RewardVault,
            to: Holding::TreasuryVault,
            authority: TransferAuthority::System,
            amount,
        }
    }

    /// Rewards going from the authority into the reward vault, signed by the
    /// authority.
    pub open spec fn funding(amount: u64) -> TransferRequest {
        TransferRequest {
            from: Holding::AuthorityRewardAccount,
            to: Holding::RewardVault,
            authority: TransferAuthority::Owner,
            amount,
        }
    }
}

} // verus!
