use stake_for_fee::errors::StakeForFeeError;
use stake_for_fee::fee_drip::TopStakerInfo;
use stake_for_fee::full_balance_list::FullBalanceList;
use stake_for_fee::pubkey::Pubkey;
use stake_for_fee::stake_escrow::StakeEscrow;
use stake_for_fee::top_list::{TopListChange, TopStakerList};
use stake_for_fee::vault::{Configuration, FeeVault, Metrics, PulledFee};

const START: i64 = 1_000;

fn key(n: u8) -> Pubkey {
    Pubkey::new_from_array([n; 32])
}

fn vault_key() -> Pubkey {
    key(200)
}

fn escrow_key(n: u8) -> Pubkey {
    key(100 + n)
}

struct World {
    vault: FeeVault,
    registry: FullBalanceList,
    top: TopStakerList,
}

fn world(top_list_length: u16, seconds_to_full_unlock: u64, unstake_lock_duration: u64) -> World {
    let vault = FeeVault {
        lock_escrow: key(201),
        stake_mint: key(202),
        pool: key(203),
        stake_token_vault: key(204),
        token_a_vault: key(205),
        token_b_vault: key(206),
        top_staker_list: key(207),
        full_balance_list: key(208),
        metrics: Metrics {
            total_staked_amount: 0,
            total_fee_a_amount: 0,
            total_fee_b_amount: 0,
            total_stake_escrow_count: 0,
            ongoing_total_partial_unstake_amount: 0,
        },
        configuration: Configuration {
            seconds_to_full_unlock,
            unstake_lock_duration,
            start_claim_fee_timestamp: START,
        },
        top_staker_info: TopStakerInfo {
            top_list_length: top_list_length as u64,
            current_length: 0,
            effective_stake_amount: 0,
            last_claim_fee_at: 0,
            last_updated_at: START,
            locked_fee_a: 0,
            locked_fee_b: 0,
            cumulative_fee_a_per_liquidity: 0,
            cumulative_fee_b_per_liquidity: 0,
        },
        creator: key(209),
        created_at: 0,
        bump: 255,
    };
    World {
        vault,
        registry: FullBalanceList::new(vault_key()),
        top: TopStakerList::new(vault_key(), top_list_length),
    }
}

fn join(w: &mut World, owner: u8, now: i64) -> StakeEscrow {
    w.vault
        .initialize_stake_escrow(&vault_key(), &mut w.registry, key(owner), now)
        .unwrap()
        .escrow
}

fn stake(w: &mut World, escrow: &mut StakeEscrow, amount: u64, now: i64) -> TopListChange {
    w.vault
        .stake(&vault_key(), &mut w.registry, &mut w.top, escrow, None, amount, now, None)
        .unwrap()
        .top_list_change
}

#[test]
fn scenario_two_stakers_share_half_released_fee() {
    let mut w = world(2, 100, 10);
    let mut first = join(&mut w, 1, 900);
    assert_eq!(stake(&mut w, &mut first, 100, 900), TopListChange::Inserted);
    let mut second = join(&mut w, 2, 900);
    assert_eq!(stake(&mut w, &mut second, 100, 900), TopListChange::Inserted);
    assert_eq!(w.vault.top_staker_info.effective_stake_amount, 200);
    assert_eq!(w.vault.metrics.total_staked_amount, 200);

    let pulled = w
        .vault
        .claim_fee_crank(START, Some(PulledFee { fee_a: 200, fee_b: 0 }), 1)
        .unwrap();
    assert_eq!(pulled.token_a_claimed, 200);
    assert_eq!(pulled.token_a_released, 0);
    assert_eq!(w.vault.top_staker_info.locked_fee_a, 200);
    assert_eq!(w.vault.metrics.total_fee_a_amount, 200);

    let emission = w.vault.claim_fee_crank(START + 50, None, 1).unwrap();
    assert_eq!(emission.token_a_released, 100);
    assert_eq!(emission.token_b_released, 0);
    assert_eq!(
        w.vault.top_staker_info.cumulative_fee_a_per_liquidity,
        (100u128 << 64) / 200
    );
    assert_eq!(w.vault.top_staker_info.cumulative_fee_b_per_liquidity, 0);
    assert_eq!(w.vault.top_staker_info.locked_fee_a, 100);

    let one = w
        .vault
        .claim_fee(&vault_key(), &mut first, u64::MAX, START + 50, None)
        .unwrap();
    assert_eq!((one.fee_a_amount, one.fee_b_amount), (50, 0));
    let two = w
        .vault
        .claim_fee(&vault_key(), &mut second, u64::MAX, START + 50, None)
        .unwrap();
    assert_eq!((two.fee_a_amount, two.fee_b_amount), (50, 0));
    assert_eq!(w.vault.top_staker_info.locked_fee_a, 100);
    assert_eq!(first.fee_a_pending, 0);
    assert_eq!(first.fee_a_claimed_amount, 50);
}

#[test]
fn scenario_displaced_staker_is_settled_before_eviction() {
    let mut w = world(1, 100, 10);
    let mut p = join(&mut w, 1, 900);
    stake(&mut w, &mut p, 100, 900);
    let mut q = join(&mut w, 2, 900);
    w.vault
        .claim_fee_crank(START, Some(PulledFee { fee_a: 300, fee_b: 7 }), 1)
        .unwrap();
    let locked_a = w.vault.top_staker_info.locked_fee_a;
    assert_eq!(locked_a, 300);
    let emission = w.vault.claim_fee_crank(START + 100, None, 1).unwrap();
    assert_eq!(emission.token_a_released, 300);
    assert_eq!(w.vault.top_staker_info.locked_fee_a, 0);
    assert_eq!(w.vault.top_staker_info.locked_fee_b, 0);

    let mut settled = p;
    settled
        .sync(
            w.vault.top_staker_info.cumulative_fee_a_per_liquidity,
            w.vault.top_staker_info.cumulative_fee_b_per_liquidity,
        )
        .unwrap();
    assert_eq!(settled.fee_a_pending, locked_a);

    let missing = w.vault.stake(
        &vault_key(),
        &mut w.registry,
        &mut w.top,
        &mut q,
        None,
        200,
        START + 100,
        None,
    );
    assert_eq!(missing.unwrap_err(), StakeForFeeError::MissingSmallestStakeEscrow);
    assert_eq!(q.stake_amount, 0);
    assert_eq!(w.vault.metrics.total_staked_amount, 100);

    let mut wrong = q;
    let invalid = w.vault.stake(
        &vault_key(),
        &mut w.registry,
        &mut w.top,
        &mut q,
        Some(&mut wrong),
        200,
        START + 100,
        None,
    );
    assert_eq!(invalid.unwrap_err(), StakeForFeeError::InvalidSmallestStakeEscrow);

    let report = w
        .vault
        .stake(
            &vault_key(),
            &mut w.registry,
            &mut w.top,
            &mut q,
            Some(&mut p),
            200,
            START + 100,
            None,
        )
        .unwrap();
    match report.top_list_change {
        TopListChange::Replaced(evicted) => {
            assert_eq!(evicted.full_balance_index, 0);
            assert_eq!(evicted.stake_amount, 100);
        }
        other => panic!("unexpected change {:?}", other),
    }
    assert!(!p.in_top_list);
    assert!(q.in_top_list);
    assert_eq!(p.fee_a_pending, 300);
    // 7 over a stake of 100 is no whole multiple of 2^-64 per unit: one unit is lost to rounding.
    assert_eq!(p.fee_b_pending, 6);
    assert_eq!(w.vault.top_staker_info.effective_stake_amount, 200);
    assert_eq!(w.vault.top_staker_info.current_length, 1);
    assert!(!w.registry.get(0).unwrap().in_top);
    assert_eq!(w.registry.get(0).unwrap().balance, 100);
    assert!(w.registry.get(1).unwrap().in_top);

    w.vault
        .claim_fee_crank(START + 400, Some(PulledFee { fee_a: 1_000, fee_b: 0 }), 1)
        .unwrap();
    w.vault.claim_fee_crank(START + 500, None, 1).unwrap();
    let claimed = w
        .vault
        .claim_fee(&vault_key(), &mut p, u64::MAX, START + 500, None)
        .unwrap();
    assert_eq!((claimed.fee_a_amount, claimed.fee_b_amount), (300, 6));
    let again = w
        .vault
        .claim_fee(&vault_key(), &mut p, u64::MAX, START + 500, None)
        .unwrap();
    assert_eq!((again.fee_a_amount, again.fee_b_amount), (0, 0));
}

#[test]
fn scenario_equal_stake_does_not_displace() {
    let mut w = world(5, 100, 10);
    let mut escrows = Vec::new();
    for owner in 1..=5u8 {
        let mut escrow = join(&mut w, owner, 900);
        assert_eq!(stake(&mut w, &mut escrow, 100, 900), TopListChange::Inserted);
        escrows.push(escrow);
    }
    w.vault
        .claim_fee_crank(START, Some(PulledFee { fee_a: 500, fee_b: 0 }), 1)
        .unwrap();
    w.vault.claim_fee_crank(START + 20, None, 1).unwrap();
    let slots_before = w.top.stakers.clone();
    let mut sixth = join(&mut w, 6, START + 20);
    let change = stake(&mut w, &mut sixth, 100, START + 20);
    assert_eq!(change, TopListChange::Unchanged);
    assert_eq!(w.top.stakers, slots_before);
    assert!(!sixth.in_top_list);
    assert_eq!(sixth.stake_amount, 100);
    assert_eq!(
        sixth.fee_a_per_liquidity_checkpoint,
        w.vault.top_staker_info.cumulative_fee_a_per_liquidity
    );
    assert_eq!(w.vault.top_staker_info.effective_stake_amount, 500);
    assert_eq!(w.vault.metrics.total_staked_amount, 600);
    assert!(!w.registry.get(5).unwrap().in_top);
    assert_eq!(w.registry.get(5).unwrap().balance, 100);

    w.vault.claim_fee_crank(START + 100, None, 1).unwrap();
    let nothing = w
        .vault
        .claim_fee(&vault_key(), &mut sixth, u64::MAX, START + 100, None)
        .unwrap();
    assert_eq!((nothing.fee_a_amount, nothing.fee_b_amount), (0, 0));
    let share = w
        .vault
        .claim_fee(&vault_key(), &mut escrows[0], u64::MAX, START + 100, None)
        .unwrap();
    // Released: 500 * 20 / 100 = 100, then 400 * 80 / 100 = 320; a fifth of each, rounded down.
    assert_eq!(share.fee_a_amount, 83);
    assert_eq!(w.vault.top_staker_info.locked_fee_a, 80);
}

#[test]
fn scenario_crank_before_start_is_a_no_op() {
    let mut w = world(2, 100, 10);
    let mut first = join(&mut w, 1, 100);
    stake(&mut w, &mut first, 100, 100);
    let before = w.vault;
    assert!(!w.vault.should_pull(START - 1));
    let emission = w
        .vault
        .claim_fee_crank(START - 1, Some(PulledFee { fee_a: 10, fee_b: 10 }), 1)
        .unwrap();
    assert_eq!(w.vault, before);
    assert_eq!(w.vault.top_staker_info.last_updated_at, START);
    assert_eq!(emission.token_a_claimed, 0);
    assert_eq!(emission.token_a_released, 0);
    assert!(w.vault.should_pull(START));
}

#[test]
fn scenario_unstake_beyond_free_stake_is_refused() {
    let mut w = world(2, 100, 10);
    let mut first = join(&mut w, 1, 900);
    stake(&mut w, &mut first, 100, 900);
    let created = w
        .vault
        .request_unstake(
            &vault_key(),
            &mut w.registry,
            &mut w.top,
            &mut first,
            &escrow_key(1),
            30,
            950,
            None,
        )
        .unwrap();
    assert_eq!(created.new_stake_escrow_amount, 70);
    assert_eq!(created.new_stake_escrow_ongoing_total_unstake_amount, 30);
    let vault_before = w.vault;
    let escrow_before = first;
    let balances_before = w.registry.staker_balances.clone();
    let slots_before = w.top.stakers.clone();
    let refused = w.vault.request_unstake(
        &vault_key(),
        &mut w.registry,
        &mut w.top,
        &mut first,
        &escrow_key(1),
        41,
        960,
        None,
    );
    assert_eq!(refused.unwrap_err(), StakeForFeeError::InsufficientStakeAmount);
    assert_eq!(w.vault, vault_before);
    assert_eq!(first, escrow_before);
    assert_eq!(w.registry.staker_balances, balances_before);
    assert_eq!(w.top.stakers, slots_before);
    let allowed = w.vault.request_unstake(
        &vault_key(),
        &mut w.registry,
        &mut w.top,
        &mut first,
        &escrow_key(1),
        40,
        960,
        None,
    );
    assert!(allowed.is_ok());
    assert_eq!(first.stake_amount, 30);
    assert_eq!(first.ongoing_total_partial_unstake_amount, 70);
}

#[test]
fn scenario_withdraw_is_gated_by_release_time() {
    let mut w = world(2, 100, 500);
    let mut first = join(&mut w, 1, 900);
    stake(&mut w, &mut first, 100, 900);
    let created = w
        .vault
        .request_unstake(
            &vault_key(),
            &mut w.registry,
            &mut w.top,
            &mut first,
            &escrow_key(1),
            60,
            950,
            None,
        )
        .unwrap();
    let ticket = created.unstake;
    assert_eq!(ticket.created_at, 950);
    assert_eq!(ticket.release_at, 1_450);
    assert_eq!(ticket.unstake_amount, 60);
    assert_eq!(w.vault.metrics.ongoing_total_partial_unstake_amount, 60);
    assert_eq!(w.vault.metrics.total_staked_amount, 100);
    assert_eq!(w.vault.top_staker_info.effective_stake_amount, 40);

    let vault_before = w.vault;
    let escrow_before = first;
    let early = w
        .vault
        .withdraw(&vault_key(), &mut first, &escrow_key(1), ticket, 1_449);
    assert_eq!(early.unwrap_err(), StakeForFeeError::CannotWithdrawUnstakeAmount);
    assert_eq!(w.vault, vault_before);
    assert_eq!(first, escrow_before);

    let foreign = w
        .vault
        .withdraw(&vault_key(), &mut first, &escrow_key(2), ticket, 1_450);
    assert_eq!(foreign.unwrap_err(), StakeForFeeError::InvalidStakeEscrow);

    let done = w
        .vault
        .withdraw(&vault_key(), &mut first, &escrow_key(1), ticket, 1_450)
        .unwrap();
    assert_eq!(done.amount, 60);
    assert_eq!(done.new_stake_escrow_ongoing_total_unstake_amount, 0);
    assert_eq!(first.ongoing_total_partial_unstake_amount, 0);
    assert_eq!(first.stake_amount, 40);
    assert_eq!(w.vault.metrics.ongoing_total_partial_unstake_amount, 0);
    assert_eq!(w.vault.metrics.total_staked_amount, 40);
}

#[test]
fn stake_unstake_cancel_restores_the_escrow() {
    let mut w = world(2, 100, 500);
    let mut second = join(&mut w, 2, 900);
    stake(&mut w, &mut second, 500, 900);
    let mut first = join(&mut w, 1, 900);
    stake(&mut w, &mut first, 100, 900);
    let staked = first;
    let created = w
        .vault
        .request_unstake(
            &vault_key(),
            &mut w.registry,
            &mut w.top,
            &mut first,
            &escrow_key(1),
            100,
            950,
            None,
        )
        .unwrap();
    assert!(created.left_top_list);
    assert!(!first.in_top_list);
    assert_eq!(w.vault.top_staker_info.current_length, 1);
    assert_eq!(w.vault.top_staker_info.effective_stake_amount, 500);
    let cancelled = w
        .vault
        .cancel_unstake(
            &vault_key(),
            &mut w.registry,
            &mut w.top,
            &mut first,
            &escrow_key(1),
            None,
            created.unstake,
            5_000,
            None,
        )
        .unwrap();
    assert_eq!(cancelled.top_list_change, TopListChange::Inserted);
    assert_eq!(first.stake_amount, staked.stake_amount);
    assert_eq!(
        first.ongoing_total_partial_unstake_amount,
        staked.ongoing_total_partial_unstake_amount
    );
    assert_eq!(first.in_top_list, staked.in_top_list);
    assert_eq!(first.full_balance_index, staked.full_balance_index);
    assert_eq!(w.vault.metrics.total_staked_amount, 600);
    assert_eq!(w.vault.top_staker_info.effective_stake_amount, 600);
}

#[test]
fn stake_unstake_withdraw_restores_the_total() {
    let mut w = world(2, 100, 500);
    let mut second = join(&mut w, 2, 900);
    stake(&mut w, &mut second, 500, 900);
    let total_before = w.vault.metrics.total_staked_amount;
    let mut first = join(&mut w, 1, 900);
    stake(&mut w, &mut first, 100, 900);
    let created = w
        .vault
        .request_unstake(
            &vault_key(),
            &mut w.registry,
            &mut w.top,
            &mut first,
            &escrow_key(1),
            100,
            950,
            None,
        )
        .unwrap();
    let done = w
        .vault
        .withdraw(&vault_key(), &mut first, &escrow_key(1), created.unstake, 1_450)
        .unwrap();
    assert_eq!(done.amount, 100);
    assert_eq!(w.vault.metrics.total_staked_amount, total_before);
    assert_eq!(first.stake_amount, 0);
    assert_eq!(first.ongoing_total_partial_unstake_amount, 0);
}

#[test]
fn stall_keeps_fees_locked_until_stake_arrives() {
    let mut w = world(2, 100, 10);
    w.vault
        .claim_fee_crank(START, Some(PulledFee { fee_a: 400, fee_b: 40 }), 1)
        .unwrap();
    let emission = w.vault.claim_fee_crank(START + 1_000, None, 1).unwrap();
    assert_eq!(emission.token_a_released, 0);
    assert_eq!(w.vault.top_staker_info.locked_fee_a, 400);
    assert_eq!(w.vault.top_staker_info.locked_fee_b, 40);
    assert_eq!(w.vault.top_staker_info.cumulative_fee_a_per_liquidity, 0);
    assert_eq!(w.vault.top_staker_info.last_updated_at, START + 1_000);

    let mut first = join(&mut w, 1, START + 1_000);
    stake(&mut w, &mut first, 10, START + 1_000);
    let next = w.vault.claim_fee_crank(START + 1_025, None, 1).unwrap();
    assert_eq!(next.token_a_released, 100);
    assert_eq!(next.token_b_released, 10);
    let all = w.vault.claim_fee_crank(START + 1_125, None, 1).unwrap();
    assert_eq!(all.token_a_released, 300);
    assert_eq!(w.vault.top_staker_info.locked_fee_a, 0);
    assert_eq!(w.vault.top_staker_info.locked_fee_b, 0);
}

#[test]
fn pull_is_throttled_to_the_minimum_interval() {
    let mut w = world(2, 100, 10);
    w.vault
        .claim_fee_crank(START, Some(PulledFee { fee_a: 10, fee_b: 0 }), 1)
        .unwrap();
    assert_eq!(w.vault.top_staker_info.last_claim_fee_at, START);
    assert!(!w.vault.should_pull(START + 299));
    let skipped = w
        .vault
        .claim_fee_crank(START + 299, Some(PulledFee { fee_a: 10, fee_b: 0 }), 1)
        .unwrap();
    assert_eq!(skipped.token_a_claimed, 0);
    assert_eq!(w.vault.top_staker_info.locked_fee_a, 10);
    assert_eq!(w.vault.top_staker_info.last_claim_fee_at, START);
    assert!(w.vault.should_pull(START + 300));
    let taken = w
        .vault
        .claim_fee_crank(START + 300, Some(PulledFee { fee_a: 10, fee_b: 0 }), 1)
        .unwrap();
    assert_eq!(taken.token_a_claimed, 10);
    assert_eq!(w.vault.top_staker_info.locked_fee_a, 20);
    assert_eq!(w.vault.metrics.total_fee_a_amount, 20);
}

#[test]
fn crank_must_be_the_only_instruction() {
    let mut w = world(2, 100, 10);
    let before = w.vault;
    assert_eq!(
        w.vault.claim_fee_crank(START, None, 2).unwrap_err(),
        StakeForFeeError::InvalidFeeCrankIx
    );
    assert_eq!(
        w.vault.claim_fee_crank(START, None, 0).unwrap_err(),
        StakeForFeeError::InvalidFeeCrankIx
    );
    assert_eq!(w.vault, before);
}

#[test]
fn stake_with_foreign_escrow_is_refused() {
    let mut w = world(2, 100, 10);
    let mut first = join(&mut w, 1, 900);
    first.vault = key(9);
    let refused = w.vault.stake(
        &vault_key(),
        &mut w.registry,
        &mut w.top,
        &mut first,
        None,
        5,
        900,
        None,
    );
    assert_eq!(refused.unwrap_err(), StakeForFeeError::InvalidStakeEscrow);
    let mut other = join(&mut w, 2, 900);
    other.full_balance_index = 77;
    assert_eq!(w.registry.len(), 1);
    let refused = w.vault.stake(
        &vault_key(),
        &mut w.registry,
        &mut w.top,
        &mut other,
        None,
        5,
        900,
        None,
    );
    assert_eq!(refused.unwrap_err(), StakeForFeeError::InvalidStakeEscrow);
}

fn largest_are_in_the_list(w: &World) -> bool {
    let full = w.top.stakers.iter().all(|slot| slot.is_occupied());
    w.registry.staker_balances.iter().filter(|entry| !entry.in_top).all(|entry| {
        w.top.stakers.iter().all(|slot| {
            if slot.is_occupied() {
                entry.balance <= slot.stake_amount
            } else {
                entry.balance == 0 && !full
            }
        })
    })
}

#[test]
fn stakes_keep_the_largest_in_the_list() {
    let mut w = world(3, 100, 10);
    let amounts = [50u64, 20, 70, 20, 60, 10, 90, 60];
    let mut escrows: Vec<StakeEscrow> = Vec::new();
    for (n, amount) in amounts.iter().enumerate() {
        let mut escrow = join(&mut w, n as u8 + 1, 900);
        let smallest_slot = w.top.smallest_occupied().map(|m| w.top.stakers[m]);
        let mut smallest = smallest_slot
            .and_then(|slot| escrows.iter().position(|e| e.full_balance_index as i64 == slot.full_balance_index))
            .map(|at| escrows[at]);
        let report = w
            .vault
            .stake(
                &vault_key(),
                &mut w.registry,
                &mut w.top,
                &mut escrow,
                smallest.as_mut(),
                *amount,
                900,
                None,
            )
            .unwrap();
        if let (TopListChange::Replaced(_), Some(settled)) = (report.top_list_change, smallest) {
            let at = escrows
                .iter()
                .position(|e| e.full_balance_index == settled.full_balance_index)
                .unwrap();
            escrows[at] = settled;
            assert!(!settled.in_top_list);
        }
        escrows.push(escrow);
        assert!(largest_are_in_the_list(&w));
        let in_list: u64 = escrows.iter().filter(|e| e.in_top_list).map(|e| e.stake_amount).sum();
        assert_eq!(w.vault.top_staker_info.effective_stake_amount, in_list);
        let held: u64 = escrows
            .iter()
            .map(|e| e.stake_amount + e.ongoing_total_partial_unstake_amount)
            .sum();
        assert_eq!(w.vault.metrics.total_staked_amount, held);
    }
    let mut stakes: Vec<u64> = w.top.stakers.iter().map(|slot| slot.stake_amount).collect();
    stakes.sort();
    assert_eq!(stakes, vec![60, 70, 90]);
    // The first of the two stakers with 60 holds the slot: the later one did not displace it.
    assert_eq!(w.top.find(4), Some(1));
    assert_eq!(w.top.find(7), None);
}

#[test]
fn fees_are_never_overpaid() {
    let mut w = world(3, 100, 10);
    let mut escrows: Vec<StakeEscrow> = Vec::new();
    for (n, amount) in [7u64, 11, 13].iter().enumerate() {
        let mut escrow = join(&mut w, n as u8 + 1, 900);
        stake(&mut w, &mut escrow, *amount, 900);
        escrows.push(escrow);
    }
    let mut pulled: u128 = 0;
    let mut paid: u128 = 0;
    let mut now = START;
    for round in 0..40u64 {
        let fee = if round % 4 == 0 { Some(PulledFee { fee_a: 1_000 + round, fee_b: 0 }) } else { None };
        let emission = w.vault.claim_fee_crank(now, fee, 1).unwrap();
        pulled += emission.token_a_claimed as u128;
        let who = (round % 3) as usize;
        if round % 2 == 0 {
            let claimed = w
                .vault
                .claim_fee(&vault_key(), &mut escrows[who], 50, now, None)
                .unwrap();
            paid += claimed.fee_a_amount as u128;
        } else {
            let mut escrow = escrows[who];
            stake(&mut w, &mut escrow, 1 + round, now);
            escrows[who] = escrow;
        }
        let pending: u128 = escrows.iter().map(|e| e.fee_a_pending as u128).sum();
        let locked = w.vault.top_staker_info.locked_fee_a as u128;
        assert!(pending + locked + paid <= pulled);
        assert_eq!(w.vault.metrics.total_fee_a_amount, pulled);
        now += 77;
    }
    assert!(paid > 0);
    assert_eq!(pulled, 10_180);
}
