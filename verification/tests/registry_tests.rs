use stake_for_fee::constant::FULL_BALANCE_LIST_HARD_LIMIT;
use stake_for_fee::errors::StakeForFeeError;
use stake_for_fee::full_balance_list::{
    FullBalanceList, Registration, RegistrationKind, StakerBalance,
};
use stake_for_fee::pubkey::Pubkey;

fn owner(n: u64) -> Pubkey {
    let mut bytes = [0u8; 32];
    bytes[..8].copy_from_slice(&n.to_le_bytes());
    bytes[31] = 1;
    Pubkey::new_from_array(bytes)
}

#[test]
fn register_appends_to_an_empty_list() {
    let mut list = FullBalanceList::new(owner(999));
    assert_eq!(list.len(), 0);
    assert_eq!(list.get(0), None);
    let first = list.register(owner(1)).unwrap();
    assert_eq!(first, Registration { index: 0, kind: RegistrationKind::Appended });
    assert_eq!(list.len(), 1);
    assert_eq!(
        list.get(0),
        Some(StakerBalance { balance: 0, owner: owner(1), in_top: false })
    );
    assert_eq!(list.metadata.vault, owner(999));
}

#[test]
fn register_twice_gives_the_same_index() {
    let mut list = FullBalanceList::new(owner(999));
    let first = list.register(owner(1)).unwrap();
    let again = list.register(owner(1)).unwrap();
    assert_eq!(first.index, again.index);
    assert_eq!(list.len(), 1);
    list.set_balance(0, 50, false);
    let existing = list.register(owner(1)).unwrap();
    assert_eq!(existing, Registration { index: 0, kind: RegistrationKind::Existing });
    let second = list.register(owner(2)).unwrap();
    assert_eq!(second, Registration { index: 1, kind: RegistrationKind::Appended });
    let second_again = list.register(owner(2)).unwrap();
    assert_eq!(second_again.index, 1);
    assert_eq!(list.len(), 2);
}

#[test]
fn index_is_stable_across_top_list_moves() {
    let mut list = FullBalanceList::new(owner(999));
    list.register(owner(1)).unwrap();
    list.set_balance(0, 10, true);
    assert_eq!(list.register(owner(1)).unwrap().index, 0);
    list.set_balance(0, 10, false);
    assert_eq!(list.register(owner(1)).unwrap().index, 0);
    list.set_balance(0, 0, true);
    assert_eq!(
        list.register(owner(1)).unwrap(),
        Registration { index: 0, kind: RegistrationKind::Existing }
    );
    assert_eq!(list.get(0).unwrap().owner, owner(1));
}

#[test]
fn register_reclaims_the_lowest_free_entry() {
    let mut list = FullBalanceList::new(owner(999));
    for n in 0..4u64 {
        let r = list.register(owner(n)).unwrap();
        assert_eq!(r.index, n);
        list.set_balance(n, 100 + n, false);
    }
    list.set_balance(1, 0, false);
    list.set_balance(2, 0, false);
    let reclaimed = list.register(owner(50)).unwrap();
    assert_eq!(reclaimed, Registration { index: 1, kind: RegistrationKind::Reclaimed });
    assert_eq!(
        list.get(1),
        Some(StakerBalance { balance: 0, owner: owner(50), in_top: false })
    );
    assert_eq!(list.get(2).unwrap().owner, owner(2));
    assert_eq!(list.len(), 4);
    list.set_balance(1, 0, true);
    let next = list.register(owner(51)).unwrap();
    assert_eq!(next, Registration { index: 2, kind: RegistrationKind::Reclaimed });
}

#[test]
fn register_fails_when_the_list_is_full() {
    let mut list = FullBalanceList::new(owner(999));
    for n in 0..FULL_BALANCE_LIST_HARD_LIMIT {
        let r = list.register(owner(n)).unwrap();
        assert_eq!(r.index, n);
        list.set_balance(n, 1, false);
    }
    assert_eq!(list.len(), FULL_BALANCE_LIST_HARD_LIMIT);
    assert_eq!(
        list.register(owner(1_000_000)),
        Err(StakeForFeeError::FullBalanceListFull)
    );
    assert_eq!(list.len(), FULL_BALANCE_LIST_HARD_LIMIT);
    assert_eq!(list.register(owner(5)).unwrap().index, 5);
    list.set_balance(77, 0, false);
    assert_eq!(
        list.register(owner(1_000_000)).unwrap(),
        Registration { index: 77, kind: RegistrationKind::Reclaimed }
    );
}

#[test]
fn set_balance_writes_in_place() {
    let mut list = FullBalanceList::new(owner(999));
    list.register(owner(1)).unwrap();
    list.set_balance(0, 5, false);
    list.register(owner(2)).unwrap();
    list.set_balance(1, 70, true);
    assert_eq!(
        list.get(1),
        Some(StakerBalance { balance: 70, owner: owner(2), in_top: true })
    );
    assert_eq!(
        list.get(0),
        Some(StakerBalance { balance: 5, owner: owner(1), in_top: false })
    );
    assert_eq!(list.get(2), None);
}

#[test]
fn iter_occupied_lists_entries_in_use() {
    let mut list = FullBalanceList::new(owner(999));
    assert_eq!(list.iter_occupied(), Vec::<u64>::new());
    for n in 0..5u64 {
        list.register(owner(n)).unwrap();
        list.set_balance(n, 1, false);
    }
    list.set_balance(1, 0, false);
    list.set_balance(3, 0, true);
    assert_eq!(list.iter_occupied(), vec![0, 2, 3, 4]);
    assert!(!list.get(1).unwrap().is_occupied());
    assert!(list.get(3).unwrap().is_occupied());
}
