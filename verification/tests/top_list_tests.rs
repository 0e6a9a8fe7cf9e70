use stake_for_fee::errors::StakeForFeeError;
use stake_for_fee::pubkey::Pubkey;
use stake_for_fee::stake_escrow::StakeEscrow;
use stake_for_fee::top_list::{StakerMetadata, TopListChange, TopStakerList};

fn key(n: u8) -> Pubkey {
    Pubkey::new_from_array([n; 32])
}

fn vault() -> Pubkey {
    key(250)
}

fn list_of(stakes: &[(u64, u64)], capacity: u16) -> TopStakerList {
    let mut list = TopStakerList::new(vault(), capacity);
    for (index, amount) in stakes {
        let change = list
            .try_add_or_update(key(*index as u8), *index, *amount, None, 0, 0)
            .unwrap();
        assert_eq!(change, TopListChange::Inserted);
    }
    list
}

fn escrow_of(index: u64, amount: u64) -> StakeEscrow {
    let mut escrow = StakeEscrow::new(key(index as u8), vault(), index, 0, 0, 0);
    escrow.stake_amount = amount;
    escrow.in_top_list = true;
    escrow
}

#[test]
fn new_list_is_empty() {
    let list = TopStakerList::new(vault(), 3);
    assert_eq!(list.stakers.len(), 3);
    assert!(list.stakers.iter().all(|slot| !slot.is_occupied()));
    assert_eq!(list.stakers[0], StakerMetadata::empty());
    assert_eq!(StakerMetadata::empty().full_balance_index, -1);
    assert_eq!(list.current_length(), 0);
    assert_eq!(list.effective_stake_amount(), Ok(0));
    assert_eq!(list.smallest_occupied(), None);
    assert_eq!(list.find(0), None);
}

#[test]
fn insert_takes_the_first_empty_slot() {
    let mut list = list_of(&[(7, 10), (3, 20)], 4);
    assert_eq!(list.find(7), Some(0));
    assert_eq!(list.find(3), Some(1));
    assert_eq!(list.find(4), None);
    assert_eq!(list.find(u64::MAX), None);
    assert_eq!(list.current_length(), 2);
    assert_eq!(list.effective_stake_amount(), Ok(30));
    assert_eq!(list.remove(7).unwrap().stake_amount, 10);
    assert_eq!(list.find(7), None);
    assert_eq!(list.current_length(), 1);
    assert_eq!(list.effective_stake_amount(), Ok(20));
    assert_eq!(list.remove(7), None);
    let change = list.try_add_or_update(key(9), 9, 5, None, 0, 0).unwrap();
    assert_eq!(change, TopListChange::Inserted);
    assert_eq!(list.find(9), Some(0));
    assert_eq!(list.stakers[0].owner, key(9));
}

#[test]
fn update_writes_the_amount_in_place() {
    let mut list = list_of(&[(1, 10), (2, 20)], 2);
    let change = list.try_add_or_update(key(1), 1, 55, None, 0, 0).unwrap();
    assert_eq!(change, TopListChange::Updated);
    assert_eq!(list.stakers[0].stake_amount, 55);
    assert_eq!(list.stakers[0].full_balance_index, 1);
    assert_eq!(list.effective_stake_amount(), Ok(75));
    assert_eq!(list.current_length(), 2);
}

#[test]
fn smallest_breaks_ties_by_index() {
    let list = list_of(&[(5, 30), (9, 10), (4, 10), (6, 10)], 4);
    assert_eq!(list.smallest_occupied(), Some(2));
    assert_eq!(list.smallest_other(4), Some(3));
    assert_eq!(list.smallest_other(6), Some(2));
    let single = list_of(&[(5, 30)], 4);
    assert_eq!(single.smallest_other(5), None);
    assert_eq!(single.smallest_occupied(), Some(0));
}

#[test]
fn full_list_keeps_incumbents_on_equal_stake() {
    let mut list = list_of(&[(1, 10), (2, 20)], 2);
    let before = list.stakers.clone();
    let mut smallest = escrow_of(1, 10);
    let equal = list
        .try_add_or_update(key(3), 3, 10, Some(&mut smallest), 0, 0)
        .unwrap();
    assert_eq!(equal, TopListChange::Unchanged);
    let less = list.try_add_or_update(key(3), 3, 9, None, 0, 0).unwrap();
    assert_eq!(less, TopListChange::Unchanged);
    assert_eq!(list.stakers, before);
    assert!(smallest.in_top_list);
}

#[test]
fn full_list_evicts_the_smallest_on_larger_stake() {
    let mut list = list_of(&[(1, 10), (2, 20)], 2);
    let before = list.stakers.clone();
    assert_eq!(
        list.try_add_or_update(key(3), 3, 11, None, 0, 0),
        Err(StakeForFeeError::MissingSmallestStakeEscrow)
    );
    let mut other = escrow_of(2, 20);
    assert_eq!(
        list.try_add_or_update(key(3), 3, 11, Some(&mut other), 0, 0),
        Err(StakeForFeeError::InvalidSmallestStakeEscrow)
    );
    let mut outside = escrow_of(1, 10);
    outside.in_top_list = false;
    assert_eq!(
        list.try_add_or_update(key(3), 3, 11, Some(&mut outside), 0, 0),
        Err(StakeForFeeError::InvalidSmallestStakeEscrow)
    );
    let mut foreign = escrow_of(1, 10);
    foreign.vault = key(1);
    assert_eq!(
        list.try_add_or_update(key(3), 3, 11, Some(&mut foreign), 0, 0),
        Err(StakeForFeeError::InvalidSmallestStakeEscrow)
    );
    let mut behind = escrow_of(1, 10);
    behind.fee_a_per_liquidity_checkpoint = 5;
    assert_eq!(
        list.try_add_or_update(key(3), 3, 11, Some(&mut behind), 4, 0),
        Err(StakeForFeeError::MathOverflow)
    );
    assert_eq!(list.stakers, before);

    let mut smallest = escrow_of(1, 10);
    let one: u128 = 1u128 << 64;
    let change = list
        .try_add_or_update(key(3), 3, 11, Some(&mut smallest), 3 * one, one / 2)
        .unwrap();
    assert_eq!(change, TopListChange::Replaced(before[0]));
    assert_eq!(list.stakers[0], StakerMetadata { stake_amount: 11, full_balance_index: 3, owner: key(3) });
    assert_eq!(list.stakers[1], before[1]);
    assert!(!smallest.in_top_list);
    assert_eq!(smallest.fee_a_pending, 30);
    assert_eq!(smallest.fee_b_pending, 5);
    assert_eq!(smallest.fee_a_per_liquidity_checkpoint, 3 * one);
    assert_eq!(list.effective_stake_amount(), Ok(31));
}

#[test]
fn list_without_slots_never_changes() {
    let mut list = TopStakerList::new(vault(), 0);
    assert_eq!(
        list.try_add_or_update(key(1), 1, 5, None, 0, 0),
        Ok(TopListChange::Unchanged)
    );
    assert_eq!(list.totals_after_place(key(1), 1, 5), Ok((0, 0)));
}

#[test]
fn reduce_updates_or_removes() {
    let mut list = list_of(&[(1, 100), (2, 50), (3, 70)], 3);
    assert_eq!(list.totals_after_reduce(1, 60), Ok((180, 3)));
    assert!(!list.reduce_or_remove(1, 60));
    assert_eq!(list.stakers[0].stake_amount, 60);
    assert_eq!(list.totals_after_reduce(1, 49), Ok((120, 2)));
    assert!(list.reduce_or_remove(1, 49));
    assert_eq!(list.find(1), None);
    assert_eq!(list.current_length(), 2);
    assert_eq!(list.effective_stake_amount(), Ok(120));
    assert!(!list.reduce_or_remove(9, 1));
    assert_eq!(list.totals_after_reduce(9, 1), Ok((120, 2)));
    assert!(!list.reduce_or_remove(3, 50));
    assert_eq!(list.stakers[2].stake_amount, 50);
    assert!(list.reduce_or_remove(3, 49));
    assert_eq!(list.current_length(), 1);
    let mut alone = list_of(&[(4, 10)], 2);
    assert!(!alone.reduce_or_remove(4, 0));
    assert_eq!(alone.stakers[0].stake_amount, 0);
    assert_eq!(alone.find(4), Some(0));
}

#[test]
fn totals_after_place_predict_each_case() {
    let list = list_of(&[(1, 10), (2, 20)], 3);
    assert_eq!(list.totals_after_place(key(1), 1, 15), Ok((35, 2)));
    assert_eq!(list.totals_after_place(key(3), 3, 7), Ok((37, 3)));
    let full = list_of(&[(1, 10), (2, 20)], 2);
    assert_eq!(full.totals_after_place(key(3), 3, 10), Ok((30, 2)));
    assert_eq!(full.totals_after_place(key(3), 3, 11), Ok((31, 2)));
    assert_eq!(
        full.totals_after_place(key(3), 3, u64::MAX),
        Err(StakeForFeeError::MathOverflow)
    );
    let big = list_of(&[(1, u64::MAX), (2, 1)], 2);
    assert_eq!(big.effective_stake_amount(), Err(StakeForFeeError::MathOverflow));
}
