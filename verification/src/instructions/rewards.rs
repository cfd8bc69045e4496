//! Claiming rewards.

use crate::clock::unix_timestamp;
use crate::errors::EconomicsError;
use crate::errors::OperationError;
use crate::events::RewardClaimEvent;
use crate::keys::same_key;
use crate::state::StakingPool;
use crate::state::TokenEconomics;
use crate::state::UserStake;
use crate::transfer::Holding;
use crate::transfer::TransferAuthority;
use crate::transfer::TransferRequest;
use crate::utils::accrued_per_share;
use crate::utils::accrued_reward_per_share;
use crate::utils::debt_at;
use crate::utils::lemma_reward_per_share_delta_nonnegative;
use crate::utils::pending_reward;
use crate::utils::reward_debt_for;
use anchor_lang::prelude::Pubkey;
use vstd::prelude::*;

verus! {

/// Basis points in a whole.
pub const BPS_DENOMINATOR: u128 = 10000;

/// The governance fee on a gross reward: `gross * fee_bps / 10000`, rounded
/// down.
pub open spec fn governance_fee(gross: int, fee_bps: int) -> int {
    (gross * fee_bps) / 10000
}

/// Everything a position is due at time `now`: what was settled earlier and
/// what it has earned since.
pub open spec fn claimable(
    economics: TokenEconomics,
    pool: StakingPool,
    user_stake: UserStake,
    now: i64,
) -> int {
    user_stake.pending_rewards + pending_reward(
        user_stake.total_staked as int,
        accrued_reward_per_share(economics, pool, now),
        user_stake.reward_debt as int,
    )
}

/// The rule, if any, that turns a claim away before the clock is consulted.
pub open spec fn claim_early_rejection(
    economics: TokenEconomics,
    user_stake: UserStake,
    user: Pubkey,
) -> Option<EconomicsError> {
    if user_stake.user != user {
        Some(EconomicsError::Unauthorized)
    } else if economics.is_paused {
        Some(EconomicsError::SystemPaused)
    } else if economics.emergency_mode {
        Some(EconomicsError::EmergencyMode)
    } else {
        None
    }
}

/// The records as a claim at time `now` leaves them, or the reason it is
/// rejected.
///
/// The pool is accrued to `now`. The gross reward is the position's pending
/// rewards plus what it earned until then; the fee is the governance share of
/// it and the net reward the rest. The position's pending rewards are
/// cleared, its debt is re-baselined at its unchanged principal, its lifetime
/// claims grow by the net reward, and the system's distributed total grows by
/// the gross reward. A claim of nothing is rejected; so is, as an overflow,
/// one for which a quantity to be stored does not fit its width or the fee
/// exceeds the gross reward.
pub open spec fn claim_outcome(
    economics: TokenEconomics,
    pool: StakingPool,
    user_stake: UserStake,
    user: Pubkey,
    now: i64,
) -> Result<(TokenEconomics, StakingPool, UserStake), EconomicsError> {
    let per_share = accrued_reward_per_share(economics, pool, now);
    let debt = reward_debt_for(user_stake.total_staked as int, per_share);
    let gross = claimable(economics, pool, user_stake, now);
    let fee = governance_fee(gross, economics.governance_fee_bps as int);
    let net = gross - fee;
    match claim_early_rejection(economics, user_stake, user) {
        Some(rule) => Err(rule),
        None => if per_share > u64::MAX || debt > u64::MAX || gross > u64::MAX {
            Err(EconomicsError::MathOverflow)
        } else if gross == 0 {
            Err(EconomicsError::NoRewardsToClaim)
        } else if fee > gross || user_stake.total_rewards_claimed + net > u64::MAX
            || economics.total_rewards_distributed + gross > u64::MAX {
            Err(EconomicsError::MathOverflow)
        } else {
            Ok(
                (
                    TokenEconomics {
                        total_rewards_distributed: (economics.total_rewards_distributed
                            + gross) as u64,
                        last_reward_update_time: now,
                        ..economics
                    },
                    StakingPool { accumulated_reward_per_token: per_share as u64, ..pool },
                    UserStake {
                        pending_rewards: 0,
                        reward_debt: debt as u64,
                        total_rewards_claimed: (user_stake.total_rewards_claimed + net) as u64,
                        last_claim_time: now,
                        ..user_stake
                    },
                ),
            )
        },
    }
}

/// What a successful claim hands to the caller: the event to publish, the
/// transfer of the fee to the treasury if there is a fee, and the transfer of
/// the net reward to the user. Both transfers are authorized by the system.
pub open spec fn claim_receipt(user: Pubkey, pool_id: u8, gross: int, fee_bps: int) -> (
    RewardClaimEvent,
    Option<TransferRequest>,
    TransferRequest,
) {
    let fee = governance_fee(gross, fee_bps);
    let net = gross - fee;
    (
        RewardClaimEvent {
            user,
            pool_id,
            gross_reward: gross as u64,
            governance_fee: fee as u64,
            net_reward: net as u64,
        },
        if fee > 0 {
            Some(TransferRequest::fee_collection(fee as u64))
        } else {
            None
        },
        TransferRequest::reward_payout(net as u64),
    )
}

/// The fee and the net reward split the gross reward exactly, and neither is
/// negative, whenever the fee rate is at most 10000 basis points.
pub proof fn lemma_fee_split_exact(gross: int, fee_bps: int)
    requires
        gross >= 0,
        0 <= fee_bps <= 10000,
    ensures
        0 <= governance_fee(gross, fee_bps) <= gross,
        governance_fee(gross, fee_bps) + (gross - governance_fee(gross, fee_bps)) == gross,
{
    assert(0 <= gross * fee_bps <= gross * 10000) by (nonlinear_arith)
        requires
            gross >= 0,
            0 <= fee_bps <= 10000,
    ;
}

/// Claims everything `user` is due at time `now`.
///
/// On success the three records are replaced by what [`claim_outcome`] gives
/// and the caller is handed what [`claim_receipt`] gives for the gross
/// reward. On rejection nothing changes.
pub fn claim_rewards_at(
    economics: &mut TokenEconomics,
    pool: &mut StakingPool,
    user_stake: &mut UserStake,
    user: Pubkey,
    now: i64,
) -> (r: Result<(RewardClaimEvent, Option<TransferRequest>, TransferRequest), EconomicsError>)
    ensures
        match claim_outcome(*old(economics), *old(pool), *old(user_stake), user, now) {
            Ok((economics_after, pool_after, stake_after)) => {
                &&& r == Ok::<
                    (RewardClaimEvent, Option<TransferRequest>, TransferRequest),
                    EconomicsError,
                >(
                    claim_receipt(
                        user,
                        old(user_stake).pool_id,
                        claimable(*old(economics), *old(pool), *old(user_stake), now),
                        old(economics).governance_fee_bps as int,
                    ),
                )
                &&& *final(economics) == economics_after
                &&& *final(pool) == pool_after
                &&& *final(user_stake) == stake_after
            },
            Err(rule) => {
                &&& r == Err::<
                    (RewardClaimEvent, Option<TransferRequest>, TransferRequest),
                    EconomicsError,
                >(rule)
                &&& *final(economics) == *old(economics)
                &&& *final(pool) == *old(pool)
                &&& *final(user_stake) == *old(user_stake)
            },
        },
        r matches Ok((event, fee_transfer, payout)) ==> {
            &&& event.gross_reward > 0
            &&& event.governance_fee == governance_fee(
                event.gross_reward as int,
                old(economics).governance_fee_bps as int,
            )
            &&& event.governance_fee + event.net_reward == event.gross_reward
            &&& payout.amount == event.net_reward
            &&& fee_transfer is Some <==> event.governance_fee > 0
            &&& fee_transfer matches Some(t) ==> t.amount == event.governance_fee
            &&& final(user_stake).pending_rewards == 0
            &&& final(user_stake).total_rewards_claimed == old(user_stake).total_rewards_claimed
                + event.net_reward
            &&& final(economics).total_rewards_distributed
                == old(economics).total_rewards_distributed + event.gross_reward
            &&& final(user_stake).reward_debt == reward_debt_for(
                final(user_stake).total_staked as int,
                final(pool).accumulated_reward_per_token as int,
            )
        },
        final(pool).accumulated_reward_per_token >= old(pool).accumulated_reward_per_token,
        old(economics).well_formed() ==> final(economics).well_formed(),
        old(pool).well_formed() ==> final(pool).well_formed(),
{
    if !same_key(&user_stake.user, &user) {
        return Err(EconomicsError::Unauthorized);
    }
    if economics.is_paused {
        return Err(EconomicsError::SystemPaused);
    }
    if economics.emergency_mode {
        return Err(EconomicsError::EmergencyMode);
    }
    proof {
        lemma_reward_per_share_delta_nonnegative(
            economics.reward_rate_per_second as int,
            now - economics.last_reward_update_time,
            pool.reward_multiplier as int,
            pool.total_staked as int,
        );
    }
    let per_share: u64 = match accrued_per_share(economics, pool, now) {
        Ok(v) => v,
        Err(e) => {
            return Err(e);
        },
    };
    let debt: u64 = match debt_at(user_stake.total_staked, per_share) {
        Ok(v) => v,
        Err(e) => {
            return Err(e);
        },
    };
    let earned: u64 = if debt >= user_stake.reward_debt {
        debt - user_stake.reward_debt
    } else {
        0
    };
    let gross: u64 = match user_stake.pending_rewards.checked_add(earned) {
        Some(v) => v,
        None => {
            return Err(EconomicsError::MathOverflow);
        },
    };
    if gross == 0 {
        return Err(EconomicsError::NoRewardsToClaim);
    }
    assert((gross as int) * (economics.governance_fee_bps as int) <= 0xffff_ffff_ffff_ffff
        * 0xffff) by (nonlinear_arith)
        requires
            0 <= gross <= 0xffff_ffff_ffff_ffff,
            0 <= economics.governance_fee_bps <= 0xffff,
    ;
    let fee_wide: u128 = (gross as u128) * (economics.governance_fee_bps as u128)
        / BPS_DENOMINATOR;
    if fee_wide > gross as u128 {
        return Err(EconomicsError::MathOverflow);
    }
    let fee: u64 = fee_wide as u64;
    let net: u64 = gross - fee;
    let claimed: u64 = match user_stake.total_rewards_claimed.checked_add(net) {
        Some(v) => v,
        None => {
            return Err(EconomicsError::MathOverflow);
        },
    };
    let distributed: u64 = match economics.total_rewards_distributed.checked_add(gross) {
        Some(v) => v,
        None => {
            return Err(EconomicsError::MathOverflow);
        },
    };

    user_stake.pending_rewards = 0;
    user_stake.reward_debt = debt;
    user_stake.total_rewards_claimed = claimed;
    user_stake.last_claim_time = now;
    pool.accumulated_reward_per_token = per_share;
    economics.last_reward_update_time = now;
    economics.total_rewards_distributed = distributed;

    let fee_transfer: Option<TransferRequest> = if fee > 0 {
        Some(
            TransferRequest {
                from: Holding::RewardVault,
                to: Holding::TreasuryVault,
                authority: TransferAuthority::System,
                amount: fee,
            },
        )
    } else {
        None
    };
    Ok(
        (
            RewardClaimEvent {
                user,
                pool_id: user_stake.pool_id,
                gross_reward: gross,
                governance_fee: fee,
                net_reward: net,
            },
            fee_transfer,
            TransferRequest {
                from: Holding::RewardVault,
                to: Holding::UserRewardAccount,
                authority: TransferAuthority::System,
                amount: net,
            },
        ),
    )
}

/// Claims everything `user` is due at the time the clock shows.
///
/// A caller who does not own the position, a paused system and a system in
/// emergency mode are rejected without reading the clock. If the clock then
/// cannot be read, its error is passed on. Otherwise the call ends as
/// [`claim_rewards_at`] does for the time that was read, which on success is
/// the tick the configuration record then shows. Nothing changes unless the
/// result is `Ok`.
pub fn claim_rewards(
    economics: &mut TokenEconomics,
    pool: &mut StakingPool,
    user_stake: &mut UserStake,
    user: Pubkey,
) -> (r: Result<(RewardClaimEvent, Option<TransferRequest>, TransferRequest), OperationError>)
    ensures
        claim_early_rejection(*old(economics), *old(user_stake), user) matches Some(rule) ==> r
            == Err::<(RewardClaimEvent, Option<TransferRequest>, TransferRequest), OperationError>(
            OperationError::Economics(rule),
        ),
        match r {
            Ok(receipt) => {
                let now = final(economics).last_reward_update_time;
                &&& claim_outcome(*old(economics), *old(pool), *old(user_stake), user, now)
                    == Ok::<(TokenEconomics, StakingPool, UserStake), EconomicsError>(
                    (*final(economics), *final(pool), *final(user_stake)),
                )
                &&& receipt == claim_receipt(
                    user,
                    old(user_stake).pool_id,
                    claimable(*old(economics), *old(pool), *old(user_stake), now),
                    old(economics).governance_fee_bps as int,
                )
            },
            Err(OperationError::Economics(rule)) => {
                &&& exists|now: i64| #[trigger]
                    claim_outcome(*old(economics), *old(pool), *old(user_stake), user, now)
                        == Err::<(TokenEconomics, StakingPool, UserStake), EconomicsError>(rule)
                &&& *final(economics) == *old(economics)
                &&& *final(pool) == *old(pool)
                &&& *final(user_stake) == *old(user_stake)
            },
            Err(OperationError::Clock(_)) => {
                &&& claim_early_rejection(*old(economics), *old(user_stake), user) is None
                &&& *final(economics) == *old(economics)
                &&& *final(pool) == *old(pool)
                &&& *final(user_stake) == *old(user_stake)
            },
        },
{
    if !same_key(&user_stake.user, &user) {
        assert(claim_outcome(*economics, *pool, *user_stake, user, 0i64) == Err::<
            (TokenEconomics, StakingPool, UserStake),
            EconomicsError,
        >(EconomicsError::Unauthorized));
        return Err(OperationError::Economics(EconomicsError::Unauthorized));
    }
    if economics.is_paused {
        assert(claim_outcome(*economics, *pool, *user_stake, user, 0i64) == Err::<
            (TokenEconomics, StakingPool, UserStake),
            EconomicsError,
        >(EconomicsError::SystemPaused));
        return Err(OperationError::Economics(EconomicsError::SystemPaused));
    }
    if economics.emergency_mode {
        assert(claim_outcome(*economics, *pool, *user_stake, user, 0i64) == Err::<
            (TokenEconomics, StakingPool, UserStake),
            EconomicsError,
        >(EconomicsError::EmergencyMode));
        return Err(OperationError::Economics(EconomicsError::EmergencyMode));
    }
    match unix_timestamp() {
        Ok(now) => match claim_rewards_at(economics, pool, user_stake, user, now) {
            Ok(done) => Ok(done),
            Err(rule) => Err(OperationError::Economics(rule)),
        },
        Err(e) => Err(OperationError::Clock(e)),
    }
}

} // verus!
