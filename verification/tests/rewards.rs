use anchor_lang::prelude::Pubkey;
use token_economics::errors::EconomicsError;
use token_economics::errors::OperationError;
use token_economics::events::RewardClaimEvent;
use token_economics::instructions::rewards::claim_rewards;
use token_economics::instructions::rewards::claim_rewards_at;
use token_economics::instructions::rewards::BPS_DENOMINATOR;
use token_economics::instructions::stake::stake_tokens_at;
use token_economics::instructions::stake::unstake_tokens_at;
use token_economics::state::StakingPool;
use token_economics::state::TokenEconomics;
use token_economics::state::UserStake;
use token_economics::transfer::Holding;
use token_economics::transfer::TransferAuthority;
use token_economics::transfer::TransferRequest;
use token_economics::utils::calculate_pending_rewards;
use token_economics::utils::calculate_reward_debt;

fn key(byte: u8) -> Pubkey {
    Pubkey::new_from_array([byte; 32])
}

fn alice() -> Pubkey {
    key(7)
}

fn bob() -> Pubkey {
    key(8)
}

fn economics(fee_bps: u16) -> TokenEconomics {
    TokenEconomics {
        authority: key(1),
        stake_mint: key(2),
        reward_mint: key(3),
        treasury_vault: key(4),
        stake_vault: key(5),
        reward_vault: key(6),
        reward_rate_per_second: 100,
        governance_fee_bps: fee_bps,
        min_stake_amount: 1,
        max_stake_amount: 1_000_000,
        total_staked: 0,
        total_rewards_distributed: 0,
        last_reward_update_time: 0,
        accumulated_reward_per_token: 0,
        active_stakers: 0,
        is_paused: false,
        emergency_mode: false,
        created_at: 0,
        bump: 255,
    }
}

fn pool() -> StakingPool {
    StakingPool {
        pool_id: 3,
        economics: key(9),
        reward_multiplier: 100,
        min_stake_period: 0,
        max_capacity: 1_000_000,
        total_staked: 0,
        active_stakers: 0,
        accumulated_reward_per_token: 0,
        created_at: 0,
        is_active: true,
        bump: 254,
    }
}

fn payout(amount: u64) -> TransferRequest {
    TransferRequest {
        from: Holding::RewardVault,
        to: Holding::UserRewardAccount,
        authority: TransferAuthority::System,
        amount,
    }
}

fn fee_collection(amount: u64) -> TransferRequest {
    TransferRequest {
        from: Holding::RewardVault,
        to: Holding::TreasuryVault,
        authority: TransferAuthority::System,
        amount,
    }
}

/// Alice holding 1000 since t = 0 in an otherwise empty pool.
fn staked(fee_bps: u16) -> (TokenEconomics, StakingPool, UserStake) {
    let mut e = economics(fee_bps);
    let mut p = pool();
    let mut u = UserStake::new(alice(), 3);
    stake_tokens_at(&mut e, &mut p, &mut u, alice(), 3, 250, 1000, 0).unwrap();
    (e, p, u)
}

#[test]
fn basis_points_denominator() {
    assert_eq!(BPS_DENOMINATOR, 10_000u128);
}

#[test]
fn five_percent_fee_on_a_thousand() {
    let (mut e, mut p, mut u) = staked(500);
    let r = claim_rewards_at(&mut e, &mut p, &mut u, alice(), 10);
    assert_eq!(
        r,
        Ok((
            RewardClaimEvent {
                user: alice(),
                pool_id: 3,
                gross_reward: 1000,
                governance_fee: 50,
                net_reward: 950,
            },
            Some(fee_collection(50)),
            payout(950),
        ))
    );
    assert_eq!(u.pending_rewards, 0);
    assert_eq!(u.reward_debt, 1000);
    assert_eq!(u.total_rewards_claimed, 950);
    assert_eq!(u.last_claim_time, 10);
    assert_eq!(u.total_staked, 1000);
    assert_eq!(p.accumulated_reward_per_token, 1_000_000_000_000);
    assert_eq!(p.total_staked, 1000);
    assert_eq!(e.total_rewards_distributed, 1000);
    assert_eq!(e.last_reward_update_time, 10);
    assert_eq!(e.total_staked, 1000);
}

#[test]
fn fee_rounds_down_and_the_split_is_exact() {
    for (fee_bps, rate, fee, net) in [
        (1u16, 1u64, 0u64, 10u64),
        (333, 1, 0, 10),
        (9999, 1, 9, 1),
        (10000, 1, 10, 0),
        (1234, 977, 1205, 8565),
    ] {
        let (mut e, mut p, mut u) = staked(fee_bps);
        e.reward_rate_per_second = rate;
        let (event, fee_transfer, reward_transfer) =
            claim_rewards_at(&mut e, &mut p, &mut u, alice(), 10).unwrap();
        assert_eq!(event.gross_reward, rate * 10);
        assert_eq!(event.governance_fee, fee);
        assert_eq!(event.net_reward, net);
        assert_eq!(event.governance_fee + event.net_reward, event.gross_reward);
        assert_eq!(reward_transfer, payout(net));
        if fee > 0 {
            assert_eq!(fee_transfer, Some(fee_collection(fee)));
        } else {
            assert_eq!(fee_transfer, None);
        }
    }
}

#[test]
fn fee_is_computed_in_a_wider_type() {
    let (mut e, mut p, mut u) = staked(10000);
    u.pending_rewards = u64::MAX;
    let (event, _, _) = claim_rewards_at(&mut e, &mut p, &mut u, alice(), 0).unwrap();
    assert_eq!(event.gross_reward, u64::MAX);
    assert_eq!(event.governance_fee, u64::MAX);
    assert_eq!(event.net_reward, 0);
}

#[test]
fn fee_above_the_whole_is_an_overflow() {
    let (mut e, mut p, mut u) = staked(10001);
    let before = (e, p, u);
    assert_eq!(
        claim_rewards_at(&mut e, &mut p, &mut u, alice(), 1000),
        Err(EconomicsError::MathOverflow)
    );
    assert_eq!((e, p, u), before);
}

#[test]
fn claim_includes_rewards_settled_earlier() {
    let (mut e, mut p, mut u) = staked(0);
    unstake_tokens_at(&mut e, &mut p, &mut u, alice(), 500, 10).unwrap();
    assert_eq!(u.pending_rewards, 1000);
    // From t = 10 to t = 20 the remaining 500 earn 1000 more.
    let (event, fee_transfer, reward_transfer) =
        claim_rewards_at(&mut e, &mut p, &mut u, alice(), 20).unwrap();
    assert_eq!(event.gross_reward, 2000);
    assert_eq!(event.governance_fee, 0);
    assert_eq!(fee_transfer, None);
    assert_eq!(reward_transfer, payout(2000));
    assert_eq!(u.reward_debt, calculate_reward_debt(500, &p).unwrap());
    assert_eq!(u.reward_debt, 1500);
}

#[test]
fn claim_of_nothing_is_rejected() {
    let (mut e, mut p, mut u) = staked(500);
    let before = (e, p, u);
    assert_eq!(
        claim_rewards_at(&mut e, &mut p, &mut u, alice(), 0),
        Err(EconomicsError::NoRewardsToClaim)
    );
    assert_eq!((e, p, u), before);
}

#[test]
fn second_claim_at_the_same_time_finds_nothing() {
    let (mut e, mut p, mut u) = staked(500);
    claim_rewards_at(&mut e, &mut p, &mut u, alice(), 10).unwrap();
    assert_eq!(calculate_pending_rewards(&u, &p), Ok(0));
    assert_eq!(
        claim_rewards_at(&mut e, &mut p, &mut u, alice(), 10),
        Err(EconomicsError::NoRewardsToClaim)
    );
}

#[test]
fn claim_while_paused_is_rejected() {
    let (mut e, mut p, mut u) = staked(500);
    e.is_paused = true;
    e.emergency_mode = true;
    let before = (e, p, u);
    assert_eq!(
        claim_rewards_at(&mut e, &mut p, &mut u, alice(), 10),
        Err(EconomicsError::SystemPaused)
    );
    assert_eq!((e, p, u), before);
}

#[test]
fn claim_in_emergency_mode_is_rejected() {
    let (mut e, mut p, mut u) = staked(500);
    e.emergency_mode = true;
    let before = (e, p, u);
    assert_eq!(
        claim_rewards_at(&mut e, &mut p, &mut u, alice(), 10),
        Err(EconomicsError::EmergencyMode)
    );
    assert_eq!((e, p, u), before);
}

#[test]
fn claim_by_a_stranger_is_unauthorized() {
    let (mut e, mut p, mut u) = staked(500);
    let before = (e, p, u);
    assert_eq!(
        claim_rewards_at(&mut e, &mut p, &mut u, bob(), 10),
        Err(EconomicsError::Unauthorized)
    );
    assert_eq!((e, p, u), before);
}

#[test]
fn claim_that_overflows_the_distributed_total_changes_nothing() {
    let (mut e, mut p, mut u) = staked(500);
    e.total_rewards_distributed = u64::MAX - 999;
    let before = (e, p, u);
    assert_eq!(
        claim_rewards_at(&mut e, &mut p, &mut u, alice(), 10),
        Err(EconomicsError::MathOverflow)
    );
    assert_eq!((e, p, u), before);
}

#[test]
fn claim_reads_the_clock_after_the_early_checks() {
    let (mut e, mut p, mut u) = staked(500);
    let before = (e, p, u);
    let r = claim_rewards(&mut e, &mut p, &mut u, bob());
    assert_eq!(r, Err(OperationError::Economics(EconomicsError::Unauthorized)));
    let r = claim_rewards(&mut e, &mut p, &mut u, alice());
    assert!(matches!(r, Err(OperationError::Clock(_))));
    assert_eq!((e, p, u), before);
    e.is_paused = true;
    let r = claim_rewards(&mut e, &mut p, &mut u, alice());
    assert_eq!(r, Err(OperationError::Economics(EconomicsError::SystemPaused)));
    e.is_paused = false;
    e.emergency_mode = true;
    let r = claim_rewards(&mut e, &mut p, &mut u, alice());
    assert_eq!(r, Err(OperationError::Economics(EconomicsError::EmergencyMode)));
}

#[test]
fn rewards_are_split_by_stake_weighted_time() {
    let mut e = economics(0);
    let mut p = pool();
    let mut a = UserStake::new(alice(), 3);
    let mut b = UserStake::new(bob(), 3);
    // Alice alone with 500 from t = 0; Bob joins with 1500 at t = 10.
    stake_tokens_at(&mut e, &mut p, &mut a, alice(), 3, 1, 500, 0).unwrap();
    stake_tokens_at(&mut e, &mut p, &mut b, bob(), 3, 2, 1500, 10).unwrap();
    assert_eq!(p.accumulated_reward_per_token, 2_000_000_000_000);
    assert_eq!(b.reward_debt, 3000);
    assert_eq!(p.total_staked, 2000);
    assert_eq!(p.active_stakers, 2);
    // Until t = 10 Alice earns all 1000; from t = 10 to t = 30 the 2000
    // emitted are split 1 : 3.
    let (alice_claim, _, _) = claim_rewards_at(&mut e, &mut p, &mut a, alice(), 30).unwrap();
    assert_eq!(p.accumulated_reward_per_token, 3_000_000_000_000);
    let (bob_claim, _, _) = claim_rewards_at(&mut e, &mut p, &mut b, bob(), 30).unwrap();
    assert_eq!(alice_claim.gross_reward, 1000 + 500);
    assert_eq!(bob_claim.gross_reward, 1500);
    assert_eq!(alice_claim.gross_reward + bob_claim.gross_reward, 100 * 30);
    assert_eq!(e.total_rewards_distributed, 3000);
    assert_eq!(a.reward_debt, 1500);
    assert_eq!(b.reward_debt, 4500);
}

#[test]
fn one_clock_serves_all_pools() {
    let mut e = economics(0);
    let mut first = pool();
    let mut second = pool();
    second.pool_id = 4;
    let mut a = UserStake::new(alice(), 3);
    let mut b = UserStake::new(bob(), 4);
    stake_tokens_at(&mut e, &mut first, &mut a, alice(), 3, 1, 1000, 0).unwrap();
    stake_tokens_at(&mut e, &mut second, &mut b, bob(), 4, 1, 1000, 0).unwrap();
    // Accruing the first pool at t = 10 moves the shared tick, so the second
    // pool has nothing outstanding at t = 10.
    claim_rewards_at(&mut e, &mut first, &mut a, alice(), 10).unwrap();
    assert_eq!(
        claim_rewards_at(&mut e, &mut second, &mut b, bob(), 10),
        Err(EconomicsError::NoRewardsToClaim)
    );
    let (event, _, _) = claim_rewards_at(&mut e, &mut second, &mut b, bob(), 15).unwrap();
    assert_eq!(event.gross_reward, 500);
}
