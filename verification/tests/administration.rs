use anchor_lang::prelude::Pubkey;
use token_economics::errors::EconomicsError;
use token_economics::errors::OperationError;
use token_economics::events::EmergencyModeChangedEvent;
use token_economics::events::PauseStateChangedEvent;
use token_economics::events::PoolCreatedEvent;
use token_economics::events::RewardRateUpdatedEvent;
use token_economics::events::RewardsFundedEvent;
use token_economics::instructions::admin::fund_rewards;
use token_economics::instructions::admin::set_emergency_mode;
use token_economics::instructions::admin::set_pause_state;
use token_economics::instructions::admin::update_reward_rate;
use token_economics::instructions::initialize::create_staking_pool;
use token_economics::instructions::initialize::create_staking_pool_at;
use token_economics::instructions::initialize::initialize_economics;
use token_economics::instructions::initialize::initialize_economics_at;
use token_economics::instructions::initialize::EconomicsAccounts;
use token_economics::instructions::rewards::claim_rewards_at;
use token_economics::instructions::stake::stake_tokens_at;
use token_economics::state::StakingPool;
use token_economics::state::TokenEconomics;
use token_economics::state::UserStake;
use token_economics::state::MAX_FEE_BPS;
use token_economics::state::MAX_REWARD_MULTIPLIER;
use token_economics::transfer::Holding;
use token_economics::transfer::TransferAuthority;
use token_economics::transfer::TransferRequest;

fn key(byte: u8) -> Pubkey {
    Pubkey::new_from_array([byte; 32])
}

fn admin() -> Pubkey {
    key(1)
}

fn accounts() -> EconomicsAccounts {
    EconomicsAccounts {
        authority: admin(),
        stake_mint: key(2),
        reward_mint: key(3),
        treasury_vault: key(4),
        stake_vault: key(5),
        reward_vault: key(6),
        bump: 255,
    }
}

fn economics() -> TokenEconomics {
    initialize_economics_at(accounts(), 100, 500, 10, 5000, 1_700_000_000).unwrap()
}

#[test]
fn limits() {
    assert_eq!(MAX_FEE_BPS, 10_000);
    assert_eq!(MAX_REWARD_MULTIPLIER, 1_000);
}

#[test]
fn record_sizes() {
    assert_eq!(TokenEconomics::LEN, 277);
    assert_eq!(StakingPool::LEN, 89);
    assert_eq!(UserStake::LEN, 98);
}

#[test]
fn economics_start_empty_and_open() {
    let e = economics();
    assert_eq!(
        e,
        TokenEconomics {
            authority: admin(),
            stake_mint: key(2),
            reward_mint: key(3),
            treasury_vault: key(4),
            stake_vault: key(5),
            reward_vault: key(6),
            reward_rate_per_second: 100,
            governance_fee_bps: 500,
            min_stake_amount: 10,
            max_stake_amount: 5000,
            total_staked: 0,
            total_rewards_distributed: 0,
            last_reward_update_time: 1_700_000_000,
            accumulated_reward_per_token: 0,
            active_stakers: 0,
            is_paused: false,
            emergency_mode: false,
            created_at: 1_700_000_000,
            bump: 255,
        }
    );
}

#[test]
fn fee_rate_is_at_most_all_of_it() {
    assert!(initialize_economics_at(accounts(), 100, 10_000, 10, 5000, 0).is_ok());
    assert_eq!(
        initialize_economics_at(accounts(), 100, 10_001, 0, 0, 0),
        Err(EconomicsError::InvalidFeeRate)
    );
}

#[test]
fn stake_bounds_are_positive_and_ordered() {
    assert_eq!(
        initialize_economics_at(accounts(), 100, 500, 0, 5000, 0),
        Err(EconomicsError::InvalidStakeAmount)
    );
    assert_eq!(
        initialize_economics_at(accounts(), 100, 500, 10, 9, 0),
        Err(EconomicsError::InvalidStakeAmount)
    );
    assert!(initialize_economics_at(accounts(), 0, 0, 10, 10, -5).is_ok());
}

#[test]
fn initialize_reads_the_clock_after_validating() {
    assert_eq!(
        initialize_economics(accounts(), 100, 10_001, 10, 5000),
        Err(OperationError::Economics(EconomicsError::InvalidFeeRate))
    );
    assert_eq!(
        initialize_economics(accounts(), 100, 500, 0, 5000),
        Err(OperationError::Economics(EconomicsError::InvalidStakeAmount))
    );
    assert!(matches!(
        initialize_economics(accounts(), 100, 500, 10, 5000),
        Err(OperationError::Clock(_))
    ));
}

#[test]
fn pool_starts_empty_and_active() {
    let e = economics();
    let r = create_staking_pool_at(&e, key(9), admin(), 3, 150, 60, 10_000, 254, 77);
    assert_eq!(
        r,
        Ok((
            StakingPool {
                pool_id: 3,
                economics: key(9),
                reward_multiplier: 150,
                min_stake_period: 60,
                max_capacity: 10_000,
                total_staked: 0,
                active_stakers: 0,
                accumulated_reward_per_token: 0,
                created_at: 77,
                is_active: true,
                bump: 254,
            },
            PoolCreatedEvent {
                pool_id: 3,
                reward_multiplier: 150,
                min_stake_period: 60,
                max_capacity: 10_000,
            },
        ))
    );
}

#[test]
fn pool_multiplier_is_between_one_and_a_thousand_percent() {
    let e = economics();
    assert_eq!(
        create_staking_pool_at(&e, key(9), admin(), 3, 0, 60, 10_000, 254, 77),
        Err(EconomicsError::InvalidMultiplier)
    );
    assert_eq!(
        create_staking_pool_at(&e, key(9), admin(), 3, 1001, 60, 10_000, 254, 77),
        Err(EconomicsError::InvalidMultiplier)
    );
    assert!(create_staking_pool_at(&e, key(9), admin(), 3, 1, 60, 10_000, 254, 77).is_ok());
    assert!(create_staking_pool_at(&e, key(9), admin(), 3, 1000, 0, 0, 254, 77).is_ok());
}

#[test]
fn pool_holding_period_is_not_negative() {
    let e = economics();
    assert_eq!(
        create_staking_pool_at(&e, key(9), admin(), 3, 100, -1, 10_000, 254, 77),
        Err(EconomicsError::InvalidStakePeriod)
    );
    assert_eq!(
        create_staking_pool_at(&e, key(9), admin(), 3, 0, -1, 10_000, 254, 77),
        Err(EconomicsError::InvalidMultiplier)
    );
}

#[test]
fn pool_creation_needs_an_unpaused_system() {
    let mut e = economics();
    e.is_paused = true;
    assert_eq!(
        create_staking_pool_at(&e, key(9), admin(), 3, 0, -1, 10_000, 254, 77),
        Err(EconomicsError::SystemPaused)
    );
}

#[test]
fn pool_creation_needs_the_authority() {
    let mut e = economics();
    e.is_paused = true;
    assert_eq!(
        create_staking_pool_at(&e, key(9), key(8), 3, 100, 60, 10_000, 254, 77),
        Err(EconomicsError::Unauthorized)
    );
}

#[test]
fn pool_creation_reads_the_clock_after_validating() {
    let e = economics();
    assert_eq!(
        create_staking_pool(&e, key(9), key(8), 3, 100, 60, 10_000, 254),
        Err(OperationError::Economics(EconomicsError::Unauthorized))
    );
    assert_eq!(
        create_staking_pool(&e, key(9), admin(), 3, 0, 60, 10_000, 254),
        Err(OperationError::Economics(EconomicsError::InvalidMultiplier))
    );
    assert_eq!(
        create_staking_pool(&e, key(9), admin(), 3, 100, -1, 10_000, 254),
        Err(OperationError::Economics(EconomicsError::InvalidStakePeriod))
    );
    assert!(matches!(
        create_staking_pool(&e, key(9), admin(), 3, 100, 60, 10_000, 254),
        Err(OperationError::Clock(_))
    ));
}

#[test]
fn pause_flag_is_set_by_the_authority_only() {
    let mut e = economics();
    let before = e;
    assert_eq!(set_pause_state(&mut e, key(8), true), Err(EconomicsError::Unauthorized));
    assert_eq!(e, before);
    assert_eq!(
        set_pause_state(&mut e, admin(), true),
        Ok(PauseStateChangedEvent { is_paused: true })
    );
    assert_eq!(e, TokenEconomics { is_paused: true, ..before });
    assert_eq!(
        set_pause_state(&mut e, admin(), false),
        Ok(PauseStateChangedEvent { is_paused: false })
    );
    assert_eq!(e, before);
}

#[test]
fn emergency_flag_is_set_by_the_authority_only() {
    let mut e = economics();
    let before = e;
    assert_eq!(set_emergency_mode(&mut e, key(8), true), Err(EconomicsError::Unauthorized));
    assert_eq!(e, before);
    assert_eq!(
        set_emergency_mode(&mut e, admin(), true),
        Ok(EmergencyModeChangedEvent { emergency_mode: true })
    );
    assert_eq!(e, TokenEconomics { emergency_mode: true, ..before });
}

#[test]
fn flags_are_independent() {
    let mut e = economics();
    set_pause_state(&mut e, admin(), true).unwrap();
    set_emergency_mode(&mut e, admin(), true).unwrap();
    set_pause_state(&mut e, admin(), false).unwrap();
    assert!(!e.is_paused);
    assert!(e.emergency_mode);
}

#[test]
fn reward_rate_is_set_by_the_authority_only() {
    let mut e = economics();
    let before = e;
    assert_eq!(update_reward_rate(&mut e, key(8), 7), Err(EconomicsError::Unauthorized));
    assert_eq!(e, before);
    assert_eq!(
        update_reward_rate(&mut e, admin(), 7),
        Ok(RewardRateUpdatedEvent { new_rate: 7 })
    );
    assert_eq!(e, TokenEconomics { reward_rate_per_second: 7, ..before });
}

#[test]
fn new_rate_applies_to_the_whole_outstanding_interval() {
    let mut e = initialize_economics_at(accounts(), 100, 0, 10, 5000, 0).unwrap();
    let (mut p, _) = create_staking_pool_at(&e, key(9), admin(), 3, 100, 0, 10_000, 254, 0)
        .unwrap();
    let mut u = UserStake::new(key(7), 3);
    stake_tokens_at(&mut e, &mut p, &mut u, key(7), 3, 1, 1000, 0).unwrap();
    // The rate changes at t = 10 without a tick; the claim at t = 20 pays the
    // new rate for all twenty seconds.
    update_reward_rate(&mut e, admin(), 300).unwrap();
    assert_eq!(p.accumulated_reward_per_token, 0);
    assert_eq!(e.last_reward_update_time, 0);
    let (event, _, _) = claim_rewards_at(&mut e, &mut p, &mut u, key(7), 20).unwrap();
    assert_eq!(event.gross_reward, 300 * 20);
}

#[test]
fn accrued_rewards_survive_a_rate_change() {
    let mut e = initialize_economics_at(accounts(), 100, 0, 10, 5000, 0).unwrap();
    let (mut p, _) = create_staking_pool_at(&e, key(9), admin(), 3, 100, 0, 10_000, 254, 0)
        .unwrap();
    let mut u = UserStake::new(key(7), 3);
    stake_tokens_at(&mut e, &mut p, &mut u, key(7), 3, 1, 1000, 0).unwrap();
    stake_tokens_at(&mut e, &mut p, &mut u, key(7), 3, 1, 1000, 10).unwrap();
    update_reward_rate(&mut e, admin(), 0).unwrap();
    let (event, _, _) = claim_rewards_at(&mut e, &mut p, &mut u, key(7), 20).unwrap();
    assert_eq!(event.gross_reward, 1000);
}

#[test]
fn funding_moves_rewards_from_the_authority_to_the_vault() {
    let e = economics();
    assert_eq!(
        fund_rewards(&e, admin(), 12_345),
        Ok((
            RewardsFundedEvent { amount: 12_345 },
            TransferRequest {
                from: Holding::AuthorityRewardAccount,
                to: Holding::RewardVault,
                authority: TransferAuthority::Owner,
                amount: 12_345,
            },
        ))
    );
    assert_eq!(fund_rewards(&e, key(8), 12_345), Err(EconomicsError::Unauthorized));
}

#[test]
fn every_error_has_its_message() {
    let expected = [
        (EconomicsError::InvalidFeeRate, "Invalid fee rate - must be <= 10000 basis points"),
        (EconomicsError::InvalidStakeAmount, "Invalid stake amount configuration"),
        (EconomicsError::InvalidMultiplier, "Invalid reward multiplier"),
        (EconomicsError::InvalidStakePeriod, "Invalid stake period"),
        (EconomicsError::SystemPaused, "System is currently paused"),
        (EconomicsError::EmergencyMode, "System is in emergency mode"),
        (EconomicsError::NotInEmergencyMode, "Not in emergency mode"),
        (EconomicsError::PoolCapacityExceeded, "Pool capacity exceeded"),
        (EconomicsError::PoolNotActive, "Pool is not active"),
        (EconomicsError::BelowMinimumStake, "Amount below minimum stake requirement"),
        (EconomicsError::ExceedsMaximumStake, "Amount exceeds maximum stake limit"),
        (EconomicsError::InsufficientStake, "Insufficient staked amount"),
        (EconomicsError::NoStakeToUnstake, "No stake to unstake"),
        (EconomicsError::MinimumStakePeriodNotMet, "Minimum stake period not met"),
        (EconomicsError::NoRewardsToClaim, "No rewards to claim"),
        (EconomicsError::MathOverflow, "Mathematical overflow occurred"),
        (EconomicsError::Unauthorized, "Unauthorized access"),
    ];
    for (error, text) in expected {
        assert_eq!(error.message(), text);
    }
}
