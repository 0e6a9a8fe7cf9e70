use stake_for_fee::errors::StakeForFeeError;
use stake_for_fee::pubkey::Pubkey;
use stake_for_fee::stake_escrow::{accrued, ClaimedFee, StakeEscrow};
use stake_for_fee::unstake::Unstake;

const ONE: u128 = 1u128 << 64;

fn key(n: u8) -> Pubkey {
    Pubkey::new_from_array([n; 32])
}

fn staker(stake: u64, in_top: bool) -> StakeEscrow {
    let mut escrow = StakeEscrow::new(key(1), key(2), 3, ONE, 2 * ONE, 77);
    escrow.stake_amount = stake;
    escrow.in_top_list = in_top;
    escrow
}

#[test]
fn new_escrow_starts_at_the_current_indices() {
    let escrow = StakeEscrow::new(key(1), key(2), 3, 11, 22, 77);
    assert_eq!(escrow.owner, key(1));
    assert_eq!(escrow.vault, key(2));
    assert_eq!(escrow.full_balance_index, 3);
    assert_eq!(escrow.stake_amount, 0);
    assert!(!escrow.in_top_list);
    assert_eq!(escrow.ongoing_total_partial_unstake_amount, 0);
    assert_eq!(escrow.created_at, 77);
    assert_eq!(escrow.fee_a_per_liquidity_checkpoint, 11);
    assert_eq!(escrow.fee_b_per_liquidity_checkpoint, 22);
    assert_eq!((escrow.fee_a_pending, escrow.fee_b_pending), (0, 0));
    assert_eq!((escrow.fee_a_claimed_amount, escrow.fee_b_claimed_amount), (0, 0));
}

#[test]
fn accrued_is_stake_times_growth_rounded_down() {
    assert_eq!(accrued(100, ONE / 2, 0), Ok(50));
    assert_eq!(accrued(3, ONE / 2, 0), Ok(1));
    assert_eq!(accrued(100, 5 * ONE + 7, 2 * ONE + 7), Ok(300));
    assert_eq!(accrued(1, ONE - 1, 0), Ok(0));
    assert_eq!(accrued(0, u128::MAX, 0), Ok(0));
    assert_eq!(accrued(5, 9, 9), Ok(0));
    assert_eq!(accrued(5, 8, 9), Err(StakeForFeeError::MathOverflow));
    assert_eq!(accrued(u64::MAX, u128::MAX, 0), Ok(u64::MAX));
}

#[test]
fn sync_credits_stakers_in_the_top_list() {
    let mut escrow = staker(40, true);
    escrow.fee_a_pending = 5;
    escrow.sync(ONE + ONE / 4, 4 * ONE).unwrap();
    assert_eq!(escrow.fee_a_pending, 15);
    assert_eq!(escrow.fee_b_pending, 80);
    assert_eq!(escrow.fee_a_per_liquidity_checkpoint, ONE + ONE / 4);
    assert_eq!(escrow.fee_b_per_liquidity_checkpoint, 4 * ONE);
    escrow.sync(ONE + ONE / 4, 4 * ONE).unwrap();
    assert_eq!((escrow.fee_a_pending, escrow.fee_b_pending), (15, 80));
}

#[test]
fn sync_moves_checkpoints_of_stakers_outside() {
    let mut escrow = staker(40, false);
    escrow.sync(9 * ONE, 9 * ONE).unwrap();
    assert_eq!((escrow.fee_a_pending, escrow.fee_b_pending), (0, 0));
    assert_eq!(escrow.fee_a_per_liquidity_checkpoint, 9 * ONE);
    escrow.in_top_list = true;
    escrow.sync(10 * ONE, 9 * ONE).unwrap();
    assert_eq!((escrow.fee_a_pending, escrow.fee_b_pending), (40, 0));
    let mut behind = staker(40, false);
    behind.sync(0, 0).unwrap();
    assert_eq!(behind.fee_a_per_liquidity_checkpoint, 0);
}

#[test]
fn sync_failure_leaves_the_escrow_alone() {
    let mut escrow = staker(40, true);
    let before = escrow;
    assert_eq!(escrow.sync(ONE - 1, 2 * ONE), Err(StakeForFeeError::MathOverflow));
    assert_eq!(escrow, before);
    escrow.fee_b_pending = u64::MAX;
    let before = escrow;
    assert_eq!(escrow.sync(ONE, 3 * ONE), Err(StakeForFeeError::MathOverflow));
    assert_eq!(escrow, before);
}

#[test]
fn equal_stakes_earn_equal_credit() {
    let mut first = staker(123, true);
    let mut second = staker(123, true);
    second.fee_a_pending = 1_000;
    second.owner = key(9);
    first.sync(ONE + 12_345_678_901_234_567_890, 2 * ONE + 1).unwrap();
    second.sync(ONE + 12_345_678_901_234_567_890, 2 * ONE + 1).unwrap();
    assert_eq!(first.fee_a_pending, second.fee_a_pending - 1_000);
    assert_eq!(first.fee_b_pending, second.fee_b_pending);
    assert_eq!(first.fee_a_pending, 82);
}

#[test]
fn claim_pays_the_pending_fee_under_the_cap() {
    let mut escrow = staker(10, true);
    let fee = escrow.claim(4 * ONE, 2 * ONE + ONE / 2, 20).unwrap();
    assert_eq!(fee, ClaimedFee { fee_a: 20, fee_b: 5 });
    assert_eq!(escrow.fee_a_pending, 10);
    assert_eq!(escrow.fee_b_pending, 0);
    assert_eq!(escrow.fee_a_claimed_amount, 20);
    assert_eq!(escrow.fee_b_claimed_amount, 5);
    let rest = escrow.claim(4 * ONE, 2 * ONE + ONE / 2, u64::MAX).unwrap();
    assert_eq!(rest, ClaimedFee { fee_a: 10, fee_b: 0 });
    assert_eq!(escrow.fee_a_claimed_amount, 30);
    let none = escrow.claim(4 * ONE, 2 * ONE + ONE / 2, 0).unwrap();
    assert_eq!(none, ClaimedFee { fee_a: 0, fee_b: 0 });
}

#[test]
fn claim_failure_leaves_the_escrow_alone() {
    let mut escrow = staker(10, true);
    let before = escrow;
    assert_eq!(escrow.claim(0, 0, 5), Err(StakeForFeeError::MathOverflow));
    assert_eq!(escrow, before);
    escrow.fee_a_claimed_amount = u128::MAX;
    escrow.fee_a_pending = 1;
    let before = escrow;
    assert_eq!(escrow.claim(ONE, 2 * ONE, 5), Err(StakeForFeeError::MathOverflow));
    assert_eq!(escrow, before);
}

#[test]
fn ticket_is_released_at_its_release_time() {
    let ticket = Unstake { stake_escrow: key(1), unstake_amount: 5, created_at: 10, release_at: 20 };
    assert!(!ticket.is_released(19));
    assert!(ticket.is_released(20));
    assert!(ticket.is_released(21));
}
