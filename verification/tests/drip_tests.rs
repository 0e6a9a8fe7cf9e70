use stake_for_fee::errors::StakeForFeeError;
use stake_for_fee::fee_drip::{elapsed, released, ReleasedFee, TopStakerInfo};

fn info(effective: u64, locked_a: u64, locked_b: u64) -> TopStakerInfo {
    TopStakerInfo {
        top_list_length: 5,
        current_length: 1,
        effective_stake_amount: effective,
        last_claim_fee_at: 1_000,
        last_updated_at: 1_000,
        locked_fee_a: locked_a,
        locked_fee_b: locked_b,
        cumulative_fee_a_per_liquidity: 17,
        cumulative_fee_b_per_liquidity: 0,
    }
}

#[test]
fn elapsed_is_clamped_to_the_window() {
    assert_eq!(elapsed(1_000, 1_050, 100), 50);
    assert_eq!(elapsed(1_000, 1_100, 100), 100);
    assert_eq!(elapsed(1_000, 9_000, 100), 100);
    assert_eq!(elapsed(1_000, 1_000, 100), 0);
    assert_eq!(elapsed(1_000, 999, 100), 0);
    assert_eq!(elapsed(i64::MIN, i64::MAX, u64::MAX), u64::MAX);
    assert_eq!(elapsed(i64::MAX, i64::MIN, 5), 0);
    assert_eq!(elapsed(-10, 10, 100), 20);
}

#[test]
fn released_is_the_share_of_the_window_rounded_down() {
    assert_eq!(released(200, 50, 100), Ok(100));
    assert_eq!(released(10, 1, 3), Ok(3));
    assert_eq!(released(10, 3, 3), Ok(10));
    assert_eq!(released(u64::MAX, u64::MAX, u64::MAX), Ok(u64::MAX));
    assert_eq!(released(7, 0, 3), Ok(0));
    assert_eq!(released(7, 0, 0), Err(StakeForFeeError::MathOverflow));
}

#[test]
fn drip_releases_into_the_indices() {
    let mut state = info(200, 200, 30);
    let fee = state.drip(100, 1_050).unwrap();
    assert_eq!(fee, ReleasedFee { fee_a: 100, fee_b: 15 });
    assert_eq!(state.locked_fee_a, 100);
    assert_eq!(state.locked_fee_b, 15);
    assert_eq!(state.cumulative_fee_a_per_liquidity, 17 + (100u128 << 64) / 200);
    assert_eq!(state.cumulative_fee_b_per_liquidity, (15u128 << 64) / 200);
    assert_eq!(state.last_updated_at, 1_050);
    assert_eq!(state.effective_stake_amount, 200);
}

#[test]
fn drip_empties_the_bucket_after_the_window() {
    let mut state = info(7, 1_000_003, 1);
    let fee = state.drip(100, 1_100).unwrap();
    assert_eq!(fee, ReleasedFee { fee_a: 1_000_003, fee_b: 1 });
    assert_eq!((state.locked_fee_a, state.locked_fee_b), (0, 0));
    let mut late = info(7, 1_000_003, 1);
    late.drip(100, 50_000).unwrap();
    assert_eq!((late.locked_fee_a, late.locked_fee_b), (0, 0));
}

#[test]
fn drip_without_stake_keeps_everything_locked() {
    let mut state = info(0, 500, 60);
    let fee = state.drip(100, 1_100).unwrap();
    assert_eq!(fee, ReleasedFee { fee_a: 0, fee_b: 0 });
    assert_eq!((state.locked_fee_a, state.locked_fee_b), (500, 60));
    assert_eq!(state.cumulative_fee_a_per_liquidity, 17);
    assert_eq!(state.cumulative_fee_b_per_liquidity, 0);
    assert_eq!(state.last_updated_at, 1_100);
}

#[test]
fn drip_reports_overflow_and_changes_nothing() {
    let mut zero_window = info(10, 5, 5);
    let before = zero_window;
    assert_eq!(zero_window.drip(0, 1_050), Err(StakeForFeeError::MathOverflow));
    assert_eq!(zero_window, before);
    let mut high = info(1, 5, 5);
    high.cumulative_fee_a_per_liquidity = u128::MAX;
    let before = high;
    assert_eq!(high.drip(100, 1_100), Err(StakeForFeeError::MathOverflow));
    assert_eq!(high, before);
}

#[test]
fn drip_never_lowers_an_index() {
    let mut state = info(3, 1_000, 10);
    let mut last = state.cumulative_fee_a_per_liquidity;
    let mut paid = 0;
    for step in 1..=12i64 {
        let fee = state.drip(100, 1_000 + step * 10).unwrap();
        paid += fee.fee_a;
        assert!(state.cumulative_fee_a_per_liquidity >= last);
        assert_eq!(state.locked_fee_a + paid, 1_000);
        last = state.cumulative_fee_a_per_liquidity;
    }
    // A tenth of what is left each time, rounded down.
    assert_eq!(state.locked_fee_a, 285);
    // 10 * 10 / 100 releases one unit; after that 9 * 10 / 100 rounds down to nothing.
    assert_eq!(state.locked_fee_b, 9);
    state.drip(100, 900).unwrap();
    assert_eq!(state.cumulative_fee_a_per_liquidity, last);
    assert_eq!(state.last_updated_at, 900);
}

#[test]
fn pull_adds_to_the_bucket() {
    let mut state = info(3, 10, 10);
    assert!(!state.pull_due(1_299));
    assert!(state.pull_due(1_300));
    state.pull(5, 6, 1_300).unwrap();
    assert_eq!((state.locked_fee_a, state.locked_fee_b), (15, 16));
    assert_eq!(state.last_claim_fee_at, 1_300);
    assert_eq!(state.last_updated_at, 1_000);
    let before = state;
    assert_eq!(state.pull(u64::MAX, 0, 1_700), Err(StakeForFeeError::MathOverflow));
    assert_eq!(state.pull(0, u64::MAX, 1_700), Err(StakeForFeeError::MathOverflow));
    assert_eq!(state, before);
}
