use crate::constant::FULL_BALANCE_LIST_HARD_LIMIT;
use crate::full_balance_list::StakerBalance;
use crate::laws::lemma_place_threshold;
use crate::operations::escrow_matches;
use crate::pubkey::Pubkey;
use crate::staking::spec_stake;
use crate::staking::Snapshot;
use crate::top_list::distinct_stakers;
use crate::top_list::holds_nowhere;
use crate::top_list::is_full;
use crate::top_list::lemma_find_some;
use crate::top_list::lemma_first_empty_some;
use crate::top_list::lemma_smallest_some;
use crate::top_list::spec_find;
use crate::top_list::spec_first_empty;
use crate::top_list::spec_place;
use crate::top_list::spec_smallest;
use crate::top_list::StakerMetadata;
use crate::top_list::TopListChange;
use crate::vault::PulledFee;
use vstd::prelude::*;

verus! {

/// Whether the two lists of a vault tell the same story: no staker is in two
/// slots, every staker of the top list has an entry in the full balance list
/// that is marked as in the top list and holds the same amount, and every entry
/// marked as in the top list has a slot.
pub open spec fn lists_agree(balances: Seq<StakerBalance>, stakers: Seq<StakerMetadata>) -> bool {
    &&& distinct_stakers(stakers)
    &&& forall|j: int|
        0 <= j < stakers.len() && (#[trigger] stakers[j]).spec_is_occupied() ==> {
            &&& stakers[j].full_balance_index < balances.len()
            &&& balances[stakers[j].full_balance_index as int].in_top
            &&& balances[stakers[j].full_balance_index as int].balance == stakers[j].stake_amount
        }
    &&& forall|i: int|
        0 <= i < balances.len() && (#[trigger] balances[i]).in_top ==> !holds_nowhere(
            stakers,
            i as u64,
        )
}

/// Whether the top list holds the largest stakes: no participant outside the
/// list has staked more than a staker of the list, and while a slot is empty no
/// participant outside the list has staked anything.
pub open spec fn holds_largest(balances: Seq<StakerBalance>, stakers: Seq<StakerMetadata>) -> bool {
    forall|i: int, j: int|
        0 <= i < balances.len() && !(#[trigger] balances[i]).in_top && 0 <= j < stakers.len() ==> (
        if (#[trigger] stakers[j]).spec_is_occupied() {
            balances[i].balance <= stakers[j].stake_amount
        } else {
            balances[i].balance == 0
        })
}

/// The eviction threshold as an invariant: if the top list holds the largest
/// stakes before a stake, it holds them after it. A staker enters the list only
/// with strictly more than the staker that leaves for it; with the same amount the
/// staker of the list stays.
///
/// The two lists must agree before the stake, and the escrow with its entry in
/// the full balance list; they agree again after it.
pub proof fn lemma_stake_keeps_largest(
    state: Snapshot,
    vault_key: Pubkey,
    amount: u64,
    now: i64,
    pulled: Option<PulledFee>,
)
    requires
        state.balances.len() <= FULL_BALANCE_LIST_HARD_LIMIT,
        lists_agree(state.balances, state.stakers),
        holds_largest(state.balances, state.stakers),
        escrow_matches(vault_key, state.balances, state.escrow) ==> state.escrow.stake_amount
            == state.balances[state.escrow.full_balance_index as int].balance,
        spec_stake(state, vault_key, amount, now, pulled) is Ok,
    ensures
        lists_agree(
            spec_stake(state, vault_key, amount, now, pulled)->Ok_0.0.balances,
            spec_stake(state, vault_key, amount, now, pulled)->Ok_0.0.stakers,
        ),
        holds_largest(
            spec_stake(state, vault_key, amount, now, pulled)->Ok_0.0.balances,
            spec_stake(state, vault_key, amount, now, pulled)->Ok_0.0.stakers,
        ),
{
    let after = spec_stake(state, vault_key, amount, now, pulled)->Ok_0.0;
    let balances = state.balances;
    let stakers = state.stakers;
    let index = state.escrow.full_balance_index;
    let new_stake = after.escrow.stake_amount;
    let entry = StakerMetadata {
        stake_amount: new_stake,
        full_balance_index: index as i64,
        owner: state.escrow.owner,
    };
    assert(escrow_matches(vault_key, balances, state.escrow));
    assert(new_stake == state.escrow.stake_amount + amount);
    let (placed, change) = spec_place(stakers, entry);
    assert(after.stakers == placed);
    lemma_find_some(stakers, index);
    lemma_first_empty_some(stakers);
    lemma_smallest_some(stakers, -1i64);
    lemma_place_threshold(stakers, entry);
    let written = balances.update(
        index as int,
        StakerBalance {
            balance: new_stake,
            owner: balances[index as int].owner,
            in_top: !(change is Unchanged),
        },
    );
    match spec_find(stakers, index) {
        Some(k) => {
            assert(after.balances == written);
            assert(stakers[k].spec_is_occupied());
            lemma_agree_after(balances, stakers, written, placed, index, k);
            assert(holds_largest(written, placed)) by {
                assert forall|i: int, j: int|
                    0 <= i < written.len() && !(#[trigger] written[i]).in_top && 0 <= j
                        < placed.len() implies (if (#[trigger] placed[j]).spec_is_occupied() {
                    written[i].balance <= placed[j].stake_amount
                } else {
                    written[i].balance == 0
                }) by {
                    assert(i != index);
                    assert(written[i] == balances[i]);
                    assert(!balances[i].in_top);
                    if j != k {
                        assert(placed[j] == stakers[j]);
                    } else {
                        assert(stakers[k].spec_is_occupied());
                    }
                }
            }
        },
        None => {
            assert(!balances[index as int].in_top);
            match spec_first_empty(stakers) {
                Some(k) => {
                    assert(after.balances == written);
                    lemma_agree_after(balances, stakers, written, placed, index, k);
                    assert(holds_largest(written, placed)) by {
                        assert forall|i: int, j: int|
                            0 <= i < written.len() && !(#[trigger] written[i]).in_top && 0 <= j
                                < placed.len() implies (if (
                        #[trigger] placed[j]).spec_is_occupied() {
                            written[i].balance <= placed[j].stake_amount
                        } else {
                            written[i].balance == 0
                        }) by {
                            assert(i != index);
                            assert(written[i] == balances[i]);
                            assert(!stakers[k].spec_is_occupied());
                            assert(balances[i].balance == 0);
                            if j != k {
                                assert(placed[j] == stakers[j]);
                            }
                        }
                    }
                },
                None => {
                    assert(is_full(stakers));
                    match change {
                        TopListChange::Replaced(evicted) => {
                            let m = spec_smallest(stakers, -1i64)->Some_0;
                            assert(evicted == stakers[m]);
                            assert(stakers[m].spec_is_occupied());
                            let out = evicted.full_balance_index as int;
                            assert(out != index);
                            let marked = written.update(
                                out,
                                StakerBalance { in_top: false, ..written[out] },
                            );
                            assert(after.balances == marked);
                            lemma_agree_after(balances, stakers, written, placed, index, m);
                            assert(lists_agree(marked, placed)) by {
                                assert forall|j: int|
                                    0 <= j < placed.len() && (
                                    #[trigger] placed[j]).spec_is_occupied() implies {
                                    &&& placed[j].full_balance_index < marked.len()
                                    &&& marked[placed[j].full_balance_index as int].in_top
                                    &&& marked[placed[j].full_balance_index as int].balance
                                        == placed[j].stake_amount
                                } by {
                                    if j != m {
                                        assert(placed[j] == stakers[j]);
                                        assert(stakers[j].full_balance_index
                                            != stakers[m].full_balance_index);
                                    }
                                }
                                assert forall|i: int|
                                    0 <= i < marked.len() && (
                                    #[trigger] marked[i]).in_top implies !holds_nowhere(
                                    placed,
                                    i as u64,
                                ) by {
                                    assert(i != out);
                                    assert(written[i].in_top);
                                    assert(!holds_nowhere(placed, i as u64));
                                }
                            }
                            assert(holds_largest(marked, placed)) by {
                                assert forall|i: int, j: int|
                                    0 <= i < marked.len() && !(#[trigger] marked[i]).in_top && 0
                                        <= j < placed.len() implies (if (
                                #[trigger] placed[j]).spec_is_occupied() {
                                    marked[i].balance <= placed[j].stake_amount
                                } else {
                                    marked[i].balance == 0
                                }) by {
                                    assert(i != index);
                                    if j != m {
                                        assert(placed[j] == stakers[j]);
                                    }
                                    assert(placed[j].spec_is_occupied());
                                    assert(evicted.stake_amount <= placed[j].stake_amount);
                                    if i == out {
                                        assert(marked[i].balance == balances[out].balance);
                                    } else {
                                        assert(marked[i] == balances[i]);
                                        assert(balances[i].balance <= stakers[m].stake_amount);
                                    }
                                }
                            }
                        },
                        _ => {
                            assert(change is Unchanged);
                            assert(after.balances == written);
                            assert(placed == stakers);
                            assert(lists_agree(written, placed)) by {
                                assert forall|j: int|
                                    0 <= j < placed.len() && (
                                    #[trigger] placed[j]).spec_is_occupied() implies {
                                    &&& placed[j].full_balance_index < written.len()
                                    &&& written[placed[j].full_balance_index as int].in_top
                                    &&& written[placed[j].full_balance_index as int].balance
                                        == placed[j].stake_amount
                                } by {
                                    assert(stakers[j].full_balance_index != index);
                                }
                                assert forall|i: int|
                                    0 <= i < written.len() && (
                                    #[trigger] written[i]).in_top implies !holds_nowhere(
                                    placed,
                                    i as u64,
                                ) by {
                                    assert(i != index);
                                    assert(written[i] == balances[i]);
                                }
                            }
                            assert(holds_largest(written, placed)) by {
                                assert forall|i: int, j: int|
                                    0 <= i < written.len() && !(#[trigger] written[i]).in_top && 0
                                        <= j < placed.len() implies (if (
                                #[trigger] placed[j]).spec_is_occupied() {
                                    written[i].balance <= placed[j].stake_amount
                                } else {
                                    written[i].balance == 0
                                }) by {
                                    assert(stakers[j].spec_is_occupied());
                                    if i != index {
                                        assert(written[i] == balances[i]);
                                    }
                                }
                            }
                        },
                    }
                },
            }
        },
    }
}

/// The two lists agree again after a staker is written into slot `k` of the
/// top list and into its entry of the full balance list, where the slot held
/// the staker, or no staker that stays.
proof fn lemma_agree_after(
    balances: Seq<StakerBalance>,
    stakers: Seq<StakerMetadata>,
    written: Seq<StakerBalance>,
    placed: Seq<StakerMetadata>,
    index: u64,
    k: int,
)
    requires
        lists_agree(balances, stakers),
        index < balances.len(),
        balances.len() <= FULL_BALANCE_LIST_HARD_LIMIT,
        0 <= k < stakers.len(),
        placed.len() == stakers.len(),
        placed[k].full_balance_index == index,
        forall|j: int| 0 <= j < stakers.len() && j != k ==> #[trigger] placed[j] == stakers[j],
        forall|j: int|
            0 <= j < stakers.len() && j != k ==> (#[trigger] stakers[j]).full_balance_index
                != index,
        written.len() == balances.len(),
        written[index as int].in_top,
        written[index as int].balance == placed[k].stake_amount,
        forall|i: int| 0 <= i < balances.len() && i != index ==> #[trigger] written[i] == balances[i],
    ensures
        distinct_stakers(placed),
        forall|j: int|
            0 <= j < placed.len() && j != k && (#[trigger] placed[j]).spec_is_occupied() ==> {
                &&& placed[j].full_balance_index < written.len()
                &&& written[placed[j].full_balance_index as int].in_top
                &&& written[placed[j].full_balance_index as int].balance == placed[j].stake_amount
            },
        forall|i: int|
            0 <= i < written.len() && (#[trigger] written[i]).in_top && (i == index || !(
            stakers[k].spec_is_occupied() && stakers[k].full_balance_index == i))
                ==> !holds_nowhere(placed, i as u64),
        !stakers[k].spec_is_occupied() || stakers[k].full_balance_index == index ==> lists_agree(
            written,
            placed,
        ),
{
    assert forall|a: int, b: int|
        0 <= a < placed.len() && 0 <= b < placed.len() && a != b && (
        #[trigger] placed[a]).spec_is_occupied() implies placed[a].full_balance_index != (
    #[trigger] placed[b]).full_balance_index by {
        if a != k && b != k {
            assert(stakers[a].spec_is_occupied());
            assert(stakers[a].full_balance_index != stakers[b].full_balance_index);
        } else if a == k {
            assert(stakers[b].full_balance_index != index);
        } else {
            assert(stakers[a].full_balance_index != index);
        }
    }
    assert forall|j: int|
        0 <= j < placed.len() && j != k && (#[trigger] placed[j]).spec_is_occupied() implies {
        &&& placed[j].full_balance_index < written.len()
        &&& written[placed[j].full_balance_index as int].in_top
        &&& written[placed[j].full_balance_index as int].balance == placed[j].stake_amount
    } by {
        assert(stakers[j].spec_is_occupied());
        assert(stakers[j].full_balance_index != index);
    }
    assert forall|i: int|
        0 <= i < written.len() && (#[trigger] written[i]).in_top && (i == index || !(
        stakers[k].spec_is_occupied() && stakers[k].full_balance_index == i))
        implies !holds_nowhere(placed, i as u64) by {
        if i == index {
            assert(placed[k].full_balance_index == i as u64);
        } else {
            assert(balances[i].in_top);
            assert(!holds_nowhere(stakers, i as u64));
            let j = choose|j: int|
                0 <= j < stakers.len() && (#[trigger] stakers[j]).full_balance_index == i as u64;
            assert(j != k);
            assert(placed[j].full_balance_index == i as u64);
        }
    }
}

} // verus!
