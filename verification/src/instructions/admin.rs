//! Controls reserved to the system's authority.

use crate::errors::EconomicsError;
use crate::events::EmergencyModeChangedEvent;
use crate::events::PauseStateChangedEvent;
use crate::events::RewardRateUpdatedEvent;
use crate::events::RewardsFundedEvent;
use crate::keys::same_key;
use crate::state::TokenEconomics;
use crate::transfer::Holding;
use crate::transfer::TransferAuthority;
use crate::transfer::TransferRequest;
use anchor_lang::prelude::Pubkey;
use vstd::prelude::*;

verus! {

/// Pauses or resumes staking, claiming and pool creation.
///
/// Only the pause flag changes, and only if `authority` is the system's
/// authority.
pub fn set_pause_state(economics: &mut TokenEconomics, authority: Pubkey, is_paused: bool) -> (r:
    Result<PauseStateChangedEvent, EconomicsError>)
    ensures
        old(economics).authority == authority ==> {
            &&& r == Ok::<PauseStateChangedEvent, EconomicsError>(
                PauseStateChangedEvent { is_paused },
            )
            &&& *final(economics) == (TokenEconomics { is_paused, ..*old(economics) })
        },
        old(economics).authority != authority ==> {
            &&& r == Err::<PauseStateChangedEvent, EconomicsError>(EconomicsError::Unauthorized)
            &&& *final(economics) == *old(economics)
        },
        old(economics).well_formed() ==> final(economics).well_formed(),
{
    if !same_key(&economics.authority, &authority) {
        return Err(EconomicsError::Unauthorized);
    }
    economics.is_paused = is_paused;
    Ok(PauseStateChangedEvent { is_paused })
}

/// Enters or leaves emergency mode.
///
/// Only the emergency flag changes, and only if `authority` is the system's
/// authority.
pub fn set_emergency_mode(
    economics: &mut TokenEconomics,
    authority: Pubkey,
    emergency_mode: bool,
) -> (r: Result<EmergencyModeChangedEvent, EconomicsError>)
    ensures
        old(economics).authority == authority ==> {
            &&& r == Ok::<EmergencyModeChangedEvent, EconomicsError>(
                EmergencyModeChangedEvent { emergency_mode },
            )
            &&& *final(economics) == (TokenEconomics { emergency_mode, ..*old(economics) })
        },
        old(economics).authority != authority ==> {
            &&& r == Err::<EmergencyModeChangedEvent, EconomicsError>(EconomicsError::Unauthorized)
            &&& *final(economics) == *old(economics)
        },
        old(economics).well_formed() ==> final(economics).well_formed(),
{
    if !same_key(&economics.authority, &authority) {
        return Err(EconomicsError::Unauthorized);
    }
    economics.emergency_mode = emergency_mode;
    Ok(EmergencyModeChangedEvent { emergency_mode })
}

/// Sets the emission rate used by every later accrual tick.
///
/// Only the rate changes, and only if `authority` is the system's authority.
/// No pool is accrued first: what a pool has accumulated stays as it is, and
/// a pool that has not ticked since before the change will apply the new rate
/// to its whole outstanding interval.
pub fn update_reward_rate(economics: &mut TokenEconomics, authority: Pubkey, new_rate: u64) -> (r:
    Result<RewardRateUpdatedEvent, EconomicsError>)
    ensures
        old(economics).authority == authority ==> {
            &&& r == Ok::<RewardRateUpdatedEvent, EconomicsError>(
                RewardRateUpdatedEvent { new_rate },
            )
            &&& *final(economics) == (TokenEconomics {
                reward_rate_per_second: new_rate,
                ..*old(economics)
            })
        },
        old(economics).authority != authority ==> {
            &&& r == Err::<RewardRateUpdatedEvent, EconomicsError>(EconomicsError::Unauthorized)
            &&& *final(economics) == *old(economics)
        },
        old(economics).well_formed() ==> final(economics).well_formed(),
{
    if !same_key(&economics.authority, &authority) {
        return Err(EconomicsError::Unauthorized);
    }
    economics.reward_rate_per_second = new_rate;
    Ok(RewardRateUpdatedEvent { new_rate })
}

/// Tops up the reward vault with `amount` from the authority's own holding.
///
/// No record changes. If `authority` is the system's authority, the caller is
/// handed the event to publish and the transfer to carry out, signed by the
/// authority.
pub fn fund_rewards(economics: &TokenEconomics, authority: Pubkey, amount: u64) -> (r: Result<
    (RewardsFundedEvent, TransferRequest),
    EconomicsError,
>)
    ensures
        r == if economics.authority == authority {
            Ok::<(RewardsFundedEvent, TransferRequest), EconomicsError>(
                (RewardsFundedEvent { amount }, TransferRequest::funding(amount)),
            )
        } else {
            Err(EconomicsError::Unauthorized)
        },
{
    if !same_key(&economics.authority, &authority) {
        return Err(EconomicsError::Unauthorized);
    }
    Ok(
        (
            RewardsFundedEvent { amount },
            TransferRequest {
                from: Holding::AuthorityRewardAccount,
                to: Holding::RewardVault,
                authority: TransferAuthority::Owner,
                amount,
            },
        ),
    )
}

} // verus!
