use stake_for_fee::config::{
    is_quote_mint, is_valid_stake_mint, Config, InitializeConfigParams, PoolInfo, ValueUpdated,
    VaultAccounts, SOL, USDC,
};
use stake_for_fee::errors::StakeForFeeError;
use stake_for_fee::pubkey::Pubkey;
use stake_for_fee::top_list::StakerMetadata;
use stake_for_fee::vault::FeeVault;

fn key(n: u8) -> Pubkey {
    Pubkey::new_from_array([n; 32])
}

fn good_params() -> InitializeConfigParams {
    InitializeConfigParams {
        top_list_length: 5,
        index: 0,
        seconds_to_full_unlock: 21_600,
        unstake_lock_duration: 2_678_400,
        join_window_duration: 0,
    }
}

fn pool() -> PoolInfo {
    PoolInfo {
        pool: key(1),
        token_a_mint: key(2),
        token_b_mint: Pubkey::new_from_array(SOL),
        is_constant_product: true,
    }
}

fn accounts() -> VaultAccounts {
    VaultAccounts {
        lock_escrow: key(3),
        lock_escrow_owner: key(100),
        stake_mint: key(2),
        stake_token_vault: key(4),
        token_a_vault: key(5),
        token_b_vault: key(6),
        top_staker_list: key(7),
        full_balance_list: key(8),
        creator: key(9),
        bump: 254,
    }
}

#[test]
fn quote_mints_are_sol_and_usdc() {
    assert_eq!(SOL[0], 6);
    assert_eq!(SOL[31], 1);
    assert_eq!(USDC[0], 198);
    assert!(is_quote_mint(&Pubkey::new_from_array(SOL)));
    assert!(is_quote_mint(&Pubkey::new_from_array(USDC)));
    assert!(!is_quote_mint(&key(0)));
    let sol = Pubkey::new_from_array(SOL);
    let usdc = Pubkey::new_from_array(USDC);
    assert!(is_valid_stake_mint(&key(2), &sol, &key(2)));
    assert!(is_valid_stake_mint(&usdc, &key(2), &key(2)));
    assert!(!is_valid_stake_mint(&key(2), &sol, &sol));
    assert!(!is_valid_stake_mint(&key(2), &key(3), &key(2)));
    assert!(!is_valid_stake_mint(&key(2), &sol, &key(3)));
    assert!(!is_valid_stake_mint(&usdc, &sol, &usdc));
}

#[test]
fn config_accepts_the_bounds() {
    let config = Config::initialize(&good_params()).unwrap();
    assert_eq!(
        config,
        Config {
            seconds_to_full_unlock: 21_600,
            unstake_lock_duration: 2_678_400,
            join_window_duration: 0,
            top_list_length: 5,
        }
    );
    let upper = InitializeConfigParams {
        top_list_length: 1_000,
        index: 9,
        seconds_to_full_unlock: 2_678_400,
        unstake_lock_duration: 21_600,
        join_window_duration: 2_678_400,
    };
    assert!(Config::initialize(&upper).is_ok());
    assert_eq!(config.validate(), Ok(()));
}

#[test]
fn config_names_the_first_parameter_out_of_range() {
    let mut p = good_params();
    p.top_list_length = 4;
    p.seconds_to_full_unlock = 0;
    assert_eq!(Config::initialize(&p), Err(StakeForFeeError::InvalidTopListLength));
    p.top_list_length = 1_001;
    assert_eq!(Config::initialize(&p), Err(StakeForFeeError::InvalidTopListLength));
    p.top_list_length = 5;
    assert_eq!(Config::initialize(&p), Err(StakeForFeeError::InvalidSecondsToFullUnlock));
    p.seconds_to_full_unlock = 2_678_401;
    assert_eq!(Config::initialize(&p), Err(StakeForFeeError::InvalidSecondsToFullUnlock));
    p.seconds_to_full_unlock = 21_600;
    p.unstake_lock_duration = 21_599;
    p.join_window_duration = u64::MAX;
    assert_eq!(Config::initialize(&p), Err(StakeForFeeError::InvalidUnstakeLockDuration));
    p.unstake_lock_duration = 2_678_401;
    assert_eq!(Config::initialize(&p), Err(StakeForFeeError::InvalidUnstakeLockDuration));
    p.unstake_lock_duration = 21_600;
    assert_eq!(Config::initialize(&p), Err(StakeForFeeError::InvalidJoinWindowDuration));
    p.join_window_duration = 2_678_401;
    assert_eq!(Config::initialize(&p), Err(StakeForFeeError::InvalidJoinWindowDuration));
}

#[test]
fn vault_is_created_from_a_template() {
    let mut params = good_params();
    params.join_window_duration = 3_600;
    let config = Config::initialize(&params).unwrap();
    let (vault, registry, top) =
        FeeVault::initialize(&key(100), &pool(), &accounts(), &config, None, 10_000).unwrap();
    assert_eq!(vault.configuration.start_claim_fee_timestamp, 13_600);
    assert_eq!(vault.configuration.seconds_to_full_unlock, 21_600);
    assert_eq!(vault.configuration.unstake_lock_duration, 2_678_400);
    assert_eq!(vault.top_staker_info.last_updated_at, 13_600);
    assert_eq!(vault.top_staker_info.top_list_length, 5);
    assert_eq!(vault.top_staker_info.current_length, 0);
    assert_eq!(vault.top_staker_info.effective_stake_amount, 0);
    assert_eq!(vault.metrics.total_staked_amount, 0);
    assert_eq!(vault.metrics.total_stake_escrow_count, 0);
    assert_eq!(vault.created_at, 10_000);
    assert_eq!(vault.pool, key(1));
    assert_eq!(vault.stake_mint, key(2));
    assert_eq!(vault.creator, key(9));
    assert_eq!(vault.bump, 254);
    assert_eq!(registry.len(), 0);
    assert_eq!(registry.metadata.vault, key(100));
    assert_eq!(top.stakers, vec![StakerMetadata::empty(); 5]);
    assert_eq!(top.metadata.vault, key(100));
}

#[test]
fn vault_accepts_a_start_inside_the_join_window() {
    let config = Config::initialize(&good_params()).unwrap();
    let at = |start: i64| {
        FeeVault::initialize(&key(100), &pool(), &accounts(), &config, Some(start), 10_000)
            .map(|(vault, _, _)| vault.configuration.start_claim_fee_timestamp)
    };
    assert_eq!(at(10_000), Ok(10_000));
    assert_eq!(at(10_000 + 2_678_400), Ok(10_000 + 2_678_400));
    assert_eq!(
        at(9_999),
        Err(StakeForFeeError::InvalidCustomStartFeeDistributeTimestamp)
    );
    assert_eq!(
        at(10_000 + 2_678_401),
        Err(StakeForFeeError::InvalidCustomStartFeeDistributeTimestamp)
    );
}

#[test]
fn vault_creation_reports_each_error() {
    let config = Config::initialize(&good_params()).unwrap();
    let mut other_pool = pool();
    other_pool.is_constant_product = false;
    assert_eq!(
        FeeVault::initialize(&key(100), &other_pool, &accounts(), &config, None, 0).unwrap_err(),
        StakeForFeeError::OnlyConstantProductPool
    );
    assert_eq!(
        FeeVault::initialize(&key(101), &pool(), &accounts(), &config, None, 0).unwrap_err(),
        StakeForFeeError::InvalidEscrowOwner
    );
    let mut quote_staked = accounts();
    quote_staked.stake_mint = Pubkey::new_from_array(SOL);
    assert_eq!(
        FeeVault::initialize(&key(100), &pool(), &quote_staked, &config, None, 0).unwrap_err(),
        StakeForFeeError::MustHaveQuoteTokenOrInvalidStakeMint
    );
    let mut no_quote = pool();
    no_quote.token_b_mint = key(50);
    assert_eq!(
        FeeVault::initialize(&key(100), &no_quote, &accounts(), &config, None, 0).unwrap_err(),
        StakeForFeeError::MustHaveQuoteTokenOrInvalidStakeMint
    );
    let mut bad = config;
    bad.top_list_length = 2;
    assert_eq!(
        FeeVault::initialize(&key(100), &pool(), &accounts(), &bad, None, 0).unwrap_err(),
        StakeForFeeError::InvalidTopListLength
    );
    let mut window = config;
    window.join_window_duration = 100;
    assert_eq!(
        FeeVault::initialize(&key(100), &pool(), &accounts(), &window, None, i64::MAX)
            .unwrap_err(),
        StakeForFeeError::MathOverflow
    );
}

#[test]
fn unstake_lock_duration_must_change_and_be_in_range() {
    let config = Config::initialize(&good_params()).unwrap();
    let (mut vault, _, _) =
        FeeVault::initialize(&key(100), &pool(), &accounts(), &config, None, 0).unwrap();
    let before = vault;
    assert_eq!(
        vault.update_unstake_lock_duration(2_678_400),
        Err(StakeForFeeError::UpdatedValueIsTheSame)
    );
    assert_eq!(
        vault.update_unstake_lock_duration(21_599),
        Err(StakeForFeeError::InvalidUnstakeLockDuration)
    );
    assert_eq!(
        vault.update_unstake_lock_duration(2_678_401),
        Err(StakeForFeeError::InvalidUnstakeLockDuration)
    );
    assert_eq!(vault, before);
    assert_eq!(
        vault.update_unstake_lock_duration(21_600),
        Ok(ValueUpdated { old_value: 2_678_400, new_value: 21_600 })
    );
    assert_eq!(vault.configuration.unstake_lock_duration, 21_600);
    assert_eq!(vault.configuration.seconds_to_full_unlock, 21_600);
}

#[test]
fn seconds_to_full_unlock_releases_before_it_changes() {
    let config = Config::initialize(&good_params()).unwrap();
    let (mut vault, _, _) =
        FeeVault::initialize(&key(100), &pool(), &accounts(), &config, None, 1_000).unwrap();
    vault.top_staker_info.effective_stake_amount = 10;
    vault.top_staker_info.locked_fee_a = 21_600;
    let before = vault;
    assert_eq!(
        vault.update_seconds_to_full_unlock(21_600, 2_000),
        Err(StakeForFeeError::UpdatedValueIsTheSame)
    );
    assert_eq!(
        vault.update_seconds_to_full_unlock(21_599, 2_000),
        Err(StakeForFeeError::InvalidSecondsToFullUnlock)
    );
    assert_eq!(vault, before);
    let (updated, emission) = vault.update_seconds_to_full_unlock(43_200, 2_000).unwrap();
    assert_eq!(updated, ValueUpdated { old_value: 21_600, new_value: 43_200 });
    assert_eq!(emission.token_a_released, 1_000);
    assert_eq!(vault.top_staker_info.locked_fee_a, 20_600);
    assert_eq!(vault.top_staker_info.last_updated_at, 2_000);
    assert_eq!(vault.configuration.seconds_to_full_unlock, 43_200);
}
