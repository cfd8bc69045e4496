use anchor_lang::prelude::Pubkey;
use token_economics::errors::EconomicsError;
use token_economics::errors::OperationError;
use token_economics::state::StakingPool;
use token_economics::state::TokenEconomics;
use token_economics::state::UserStake;
use token_economics::utils::accrue;
use token_economics::utils::accrued_per_share;
use token_economics::utils::calculate_pending_rewards;
use token_economics::utils::calculate_reward_debt;
use token_economics::utils::update_reward_accumulation;
use token_economics::utils::REWARD_PRECISION;

fn key(byte: u8) -> Pubkey {
    Pubkey::new_from_array([byte; 32])
}

fn economics(rate: u64, last_update: i64) -> TokenEconomics {
    TokenEconomics {
        authority: key(1),
        stake_mint: key(2),
        reward_mint: key(3),
        treasury_vault: key(4),
        stake_vault: key(5),
        reward_vault: key(6),
        reward_rate_per_second: rate,
        governance_fee_bps: 500,
        min_stake_amount: 1,
        max_stake_amount: u64::MAX,
        total_staked: 0,
        total_rewards_distributed: 0,
        last_reward_update_time: last_update,
        accumulated_reward_per_token: 0,
        active_stakers: 0,
        is_paused: false,
        emergency_mode: false,
        created_at: 0,
        bump: 255,
    }
}

fn pool(multiplier: u16, staked: u64, per_share: u64) -> StakingPool {
    StakingPool {
        pool_id: 0,
        economics: key(9),
        reward_multiplier: multiplier,
        min_stake_period: 0,
        max_capacity: u64::MAX,
        total_staked: staked,
        active_stakers: 1,
        accumulated_reward_per_token: per_share,
        created_at: 0,
        is_active: true,
        bump: 254,
    }
}

fn position(staked: u64, debt: u64) -> UserStake {
    let mut stake = UserStake::new(key(7), 0);
    stake.total_staked = staked;
    stake.reward_debt = debt;
    stake
}

#[test]
fn precision_is_ten_to_the_twelfth() {
    assert_eq!(REWARD_PRECISION, 1_000_000_000_000u128);
}

#[test]
fn single_staker_earns_the_whole_emission() {
    let mut e = economics(100, 0);
    let mut p = pool(100, 1000, 0);
    assert_eq!(accrue(&mut e, &mut p, 10), Ok(()));
    assert_eq!(p.accumulated_reward_per_token, 1_000_000_000_000);
    assert_eq!(e.last_reward_update_time, 10);
    let stake = position(1000, 0);
    assert_eq!(calculate_pending_rewards(&stake, &p), Ok(1000));
}

#[test]
fn accrual_applies_the_multiplier() {
    let mut e = economics(100, 0);
    let mut p = pool(250, 1000, 7);
    assert_eq!(accrue(&mut e, &mut p, 10), Ok(()));
    // 100 * 10 * 250 / 100 = 2500 emitted; 2500 * 1e12 / 1000 per unit.
    assert_eq!(p.accumulated_reward_per_token, 7 + 2_500_000_000_000);
}

#[test]
fn accrual_rounds_down_twice() {
    let mut e = economics(3, 0);
    let mut p = pool(150, 7, 0);
    assert_eq!(accrue(&mut e, &mut p, 1), Ok(()));
    // 3 * 1 * 150 / 100 = 4 (from 4.5); 4 * 1e12 / 7 = 571428571428 (rounded down).
    assert_eq!(p.accumulated_reward_per_token, 571_428_571_428);
}

#[test]
fn accrual_without_stake_only_moves_the_clock() {
    let mut e = economics(100, 5);
    let mut p = pool(100, 0, 42);
    assert_eq!(accrue(&mut e, &mut p, 50), Ok(()));
    assert_eq!(p.accumulated_reward_per_token, 42);
    assert_eq!(e.last_reward_update_time, 50);
}

#[test]
fn accrual_without_elapsed_time_changes_nothing_but_the_tick() {
    let mut e = economics(100, 50);
    let mut p = pool(100, 1000, 42);
    assert_eq!(accrue(&mut e, &mut p, 50), Ok(()));
    assert_eq!(p.accumulated_reward_per_token, 42);
    assert_eq!(e.last_reward_update_time, 50);
    assert_eq!(accrue(&mut e, &mut p, 20), Ok(()));
    assert_eq!(p.accumulated_reward_per_token, 42);
    assert_eq!(e.last_reward_update_time, 20);
}

#[test]
fn accrual_is_not_counted_twice() {
    let mut e = economics(100, 0);
    let mut p = pool(100, 1000, 0);
    assert_eq!(accrue(&mut e, &mut p, 10), Ok(()));
    assert_eq!(accrue(&mut e, &mut p, 10), Ok(()));
    assert_eq!(p.accumulated_reward_per_token, 1_000_000_000_000);
}

#[test]
fn accrual_overflow_is_reported_and_changes_nothing() {
    let mut e = economics(u64::MAX, 0);
    let mut p = pool(1000, 1, 3);
    let e_before = e;
    let p_before = p;
    assert_eq!(accrue(&mut e, &mut p, i64::MAX), Err(EconomicsError::MathOverflow));
    assert_eq!(e, e_before);
    assert_eq!(p, p_before);
}

#[test]
fn accrual_overflow_on_the_final_addition() {
    let mut e = economics(1, 0);
    let mut p = pool(100, 1_000_000_000_000, u64::MAX);
    let p_before = p;
    // Exactly one unit per share accrues, which no longer fits.
    assert_eq!(accrue(&mut e, &mut p, 1), Err(EconomicsError::MathOverflow));
    assert_eq!(p, p_before);
    assert_eq!(e.last_reward_update_time, 0);
    p.accumulated_reward_per_token = u64::MAX - 1;
    assert_eq!(accrue(&mut e, &mut p, 1), Ok(()));
    assert_eq!(p.accumulated_reward_per_token, u64::MAX);
}

#[test]
fn accrual_spans_the_whole_range_of_timestamps() {
    let e = economics(1, i64::MIN);
    let p = pool(100, u64::MAX, 0);
    // 2^64 - 1 seconds at one unit per second, shared among 2^64 - 1 units.
    assert_eq!(accrued_per_share(&e, &p, i64::MAX), Ok(1_000_000_000_000));
}

#[test]
fn accrued_per_share_leaves_the_records_alone() {
    let e = economics(100, 0);
    let p = pool(100, 1000, 5);
    assert_eq!(accrued_per_share(&e, &p, 10), Ok(1_000_000_000_005));
    assert_eq!(p.accumulated_reward_per_token, 5);
    assert_eq!(e.last_reward_update_time, 0);
}

#[test]
fn pending_rewards_are_measured_from_the_debt() {
    let p = pool(100, 1000, 3_500_000_000_000);
    assert_eq!(calculate_pending_rewards(&position(1000, 0), &p), Ok(3500));
    assert_eq!(calculate_pending_rewards(&position(1000, 3000), &p), Ok(500));
    assert_eq!(calculate_pending_rewards(&position(1000, 3500), &p), Ok(0));
}

#[test]
fn pending_rewards_never_go_negative() {
    let p = pool(100, 1000, 1_000_000_000_000);
    assert_eq!(calculate_pending_rewards(&position(1000, 1001), &p), Ok(0));
    assert_eq!(calculate_pending_rewards(&position(1000, u64::MAX), &p), Ok(0));
    assert_eq!(calculate_pending_rewards(&position(0, 17), &p), Ok(0));
}

#[test]
fn pending_rewards_round_down() {
    let p = pool(100, 1000, 1_999_999_999_999);
    assert_eq!(calculate_pending_rewards(&position(1, 0), &p), Ok(1));
    assert_eq!(calculate_pending_rewards(&position(3, 0), &p), Ok(5));
}

#[test]
fn pending_rewards_that_do_not_fit_are_an_overflow() {
    let p = pool(100, 1000, u64::MAX);
    assert_eq!(
        calculate_pending_rewards(&position(u64::MAX, 0), &p),
        Err(EconomicsError::MathOverflow)
    );
}

#[test]
fn reward_debt_is_amount_times_rate_over_precision() {
    let p = pool(100, 1000, 2_500_000_000_000);
    assert_eq!(calculate_reward_debt(0, &p), Ok(0));
    assert_eq!(calculate_reward_debt(1000, &p), Ok(2500));
    assert_eq!(calculate_reward_debt(1, &p), Ok(2));
    assert_eq!(calculate_reward_debt(3, &p), Ok(7));
}

#[test]
fn reward_debt_at_the_edge_of_its_width() {
    let p = pool(100, 1000, 1_000_000_000_000);
    assert_eq!(calculate_reward_debt(u64::MAX, &p), Ok(u64::MAX));
    let q = pool(100, 1000, 1_000_000_000_001);
    assert_eq!(calculate_reward_debt(u64::MAX, &q), Err(EconomicsError::MathOverflow));
}

#[test]
fn update_without_a_clock_passes_the_error_on() {
    let mut e = economics(100, 0);
    let mut p = pool(100, 1000, 0);
    let e_before = e;
    let p_before = p;
    let r = update_reward_accumulation(&mut e, &mut p);
    assert!(matches!(r, Err(OperationError::Clock(_))));
    assert_eq!(e, e_before);
    assert_eq!(p, p_before);
}
