use crate::errors::StakeForFeeError;
use crate::pubkey::Pubkey;
use crate::stake_escrow::StakeEscrow;
use vstd::prelude::*;

verus! {

/// Heading of a vault's top staker list.
#[derive(Clone, Copy, Debug, PartialEq, Eq)]
pub struct TopListMetadata {
    /// The vault the list belongs to.
    pub vault: Pubkey,
}

/// One slot of the top staker list.
#[derive(Clone, Copy, Debug, PartialEq, Eq)]
pub struct StakerMetadata {
    /// Amount the staker has staked.
    pub stake_amount: u64,
    /// The staker's index in the full balance list; negative in an empty slot.
    pub full_balance_index: i64,
    /// Who the staker is.
    pub owner: Pubkey,
}

impl StakerMetadata {
    /// A slot holds a staker when its index is not negative.
    pub open spec fn spec_is_occupied(self) -> bool {
        self.full_balance_index >= 0
    }

    /// Tells whether the slot holds a staker.
    pub fn is_occupied(&self) -> (r: bool)
        ensures
            r == self.spec_is_occupied(),
    {
        self.full_balance_index >= 0
    }

    /// What the slot adds to the effective stake: its amount if it holds a staker.
    pub open spec fn spec_weight(self) -> nat {
        if self.spec_is_occupied() {
            self.stake_amount as nat
        } else {
            0
        }
    }

    /// Whether the staker of this slot leaves the list before the staker of
    /// `other` does: it has staked less, or the same with the lower index.
    pub open spec fn spec_evicted_before(self, other: StakerMetadata) -> bool {
        self.stake_amount < other.stake_amount || (self.stake_amount == other.stake_amount
            && self.full_balance_index <= other.full_balance_index)
    }

    /// The empty slot: no amount, a negative index, the all-zero owner.
    pub open spec fn spec_empty() -> StakerMetadata {
        StakerMetadata { stake_amount: 0, full_balance_index: -1i64, owner: Pubkey::spec_default() }
    }

    /// Makes an empty slot.
    pub fn empty() -> (r: StakerMetadata)
        ensures
            r == Self::spec_empty(),
    {
        StakerMetadata { stake_amount: 0, full_balance_index: -1, owner: Pubkey::default() }
    }
}

/// The sum of the amounts staked in the occupied slots.
pub open spec fn total_stake(slots: Seq<StakerMetadata>) -> nat
    decreases slots.len(),
{
    if slots.len() == 0 {
        0
    } else {
        total_stake(slots.drop_last()) + slots.last().spec_weight()
    }
}

/// The number of occupied slots.
pub open spec fn occupied_count(slots: Seq<StakerMetadata>) -> nat
    decreases slots.len(),
{
    if slots.len() == 0 {
        0
    } else {
        occupied_count(slots.drop_last()) + if slots.last().spec_is_occupied() {
            1nat
        } else {
            0nat
        }
    }
}

/// Whether slot `i` is the lowest slot that holds the staker with index
/// `full_balance_index`.
pub open spec fn holds_at(slots: Seq<StakerMetadata>, full_balance_index: u64, i: int) -> bool {
    &&& 0 <= i < slots.len()
    &&& slots[i].full_balance_index == full_balance_index
    &&& forall|j: int| 0 <= j < i ==> (#[trigger] slots[j]).full_balance_index != full_balance_index
}

/// Whether no slot holds the staker with index `full_balance_index`.
pub open spec fn holds_nowhere(slots: Seq<StakerMetadata>, full_balance_index: u64) -> bool {
    forall|j: int|
        0 <= j < slots.len() ==> (#[trigger] slots[j]).full_balance_index != full_balance_index
}

/// The slot that holds the staker with index `full_balance_index`, if one does.
pub open spec fn spec_find(slots: Seq<StakerMetadata>, full_balance_index: u64) -> Option<int> {
    if holds_nowhere(slots, full_balance_index) {
        None
    } else {
        Some(choose|i: int| holds_at(slots, full_balance_index, i))
    }
}

/// Whether slot `i` is the lowest empty slot.
pub open spec fn is_first_empty(slots: Seq<StakerMetadata>, i: int) -> bool {
    &&& 0 <= i < slots.len()
    &&& !slots[i].spec_is_occupied()
    &&& forall|j: int| 0 <= j < i ==> (#[trigger] slots[j]).spec_is_occupied()
}

/// Whether every slot holds a staker.
pub open spec fn is_full(slots: Seq<StakerMetadata>) -> bool {
    forall|j: int| 0 <= j < slots.len() ==> (#[trigger] slots[j]).spec_is_occupied()
}

/// The lowest empty slot, if there is one.
pub open spec fn spec_first_empty(slots: Seq<StakerMetadata>) -> Option<int> {
    if is_full(slots) {
        None
    } else {
        Some(choose|i: int| is_first_empty(slots, i))
    }
}

/// Whether the slot counts when the staker with index `excluded` is left aside.
pub open spec fn is_other(slot: StakerMetadata, excluded: i64) -> bool {
    slot.spec_is_occupied() && slot.full_balance_index != excluded
}

/// Whether slot `m` holds the staker that leaves first among the stakers other than
/// the one with index `excluded`: none of them leaves before it, and no lower slot
/// holds one that ties with it.
pub open spec fn is_smallest(slots: Seq<StakerMetadata>, excluded: i64, m: int) -> bool {
    &&& 0 <= m < slots.len()
    &&& is_other(slots[m], excluded)
    &&& forall|j: int|
        0 <= j < slots.len() && is_other(#[trigger] slots[j], excluded)
            ==> slots[m].spec_evicted_before(slots[j])
    &&& forall|j: int|
        0 <= j < m && is_other(#[trigger] slots[j], excluded) ==> !slots[j].spec_evicted_before(
            slots[m],
        )
}

/// Whether no slot holds a staker other than the one with index `excluded`.
pub open spec fn has_no_other(slots: Seq<StakerMetadata>, excluded: i64) -> bool {
    forall|j: int| 0 <= j < slots.len() ==> !is_other(#[trigger] slots[j], excluded)
}

/// The slot of the staker that leaves first among the stakers other than the one
/// with index `excluded`, if there is one.
pub open spec fn spec_smallest(slots: Seq<StakerMetadata>, excluded: i64) -> Option<int> {
    if has_no_other(slots, excluded) {
        None
    } else {
        Some(choose|m: int| is_smallest(slots, excluded, m))
    }
}

/// No two occupied slots hold the same staker.
pub open spec fn distinct_stakers(slots: Seq<StakerMetadata>) -> bool {
    forall|i: int, j: int|
        0 <= i < slots.len() && 0 <= j < slots.len() && i != j && (
        #[trigger] slots[i]).spec_is_occupied() ==> slots[i].full_balance_index != (
        #[trigger] slots[j]).full_balance_index
}

/// At most one slot is the one that `spec_find` names.
pub proof fn lemma_find_unique(slots: Seq<StakerMetadata>, full_balance_index: u64, i: int)
    requires
        holds_at(slots, full_balance_index, i),
    ensures
        spec_find(slots, full_balance_index) == Some(i),
{
    assert(!holds_nowhere(slots, full_balance_index));
    let c = choose|c: int| holds_at(slots, full_balance_index, c);
    assert(c == i) by {
        if c < i {
            assert(slots[c].full_balance_index != full_balance_index);
        }
        if i < c {
            assert(slots[i].full_balance_index != full_balance_index);
        }
    }
}

/// At most one slot is the one that `spec_first_empty` names.
pub proof fn lemma_first_empty_unique(slots: Seq<StakerMetadata>, i: int)
    requires
        is_first_empty(slots, i),
    ensures
        spec_first_empty(slots) == Some(i),
{
    assert(!is_full(slots));
    let c = choose|c: int| is_first_empty(slots, c);
    assert(c == i) by {
        if c < i {
            assert(slots[c].spec_is_occupied());
        }
        if i < c {
            assert(slots[i].spec_is_occupied());
        }
    }
}

/// At most one slot is the one that `spec_smallest` names.
pub proof fn lemma_smallest_unique(slots: Seq<StakerMetadata>, excluded: i64, m: int)
    requires
        is_smallest(slots, excluded, m),
    ensures
        spec_smallest(slots, excluded) == Some(m),
{
    assert(!has_no_other(slots, excluded));
    let c = choose|c: int| is_smallest(slots, excluded, c);
    assert(c == m) by {
        if c < m {
            assert(is_other(slots[c], excluded));
            assert(slots[c].spec_evicted_before(slots[m]));
        }
        if m < c {
            assert(is_other(slots[m], excluded));
            assert(slots[m].spec_evicted_before(slots[c]));
        }
    }
}

/// Among the slots up to `n` that hold the staker with index
/// `full_balance_index`, one is the lowest.
proof fn lemma_find_below(slots: Seq<StakerMetadata>, full_balance_index: u64, n: int)
    requires
        0 <= n < slots.len(),
        slots[n].full_balance_index == full_balance_index,
    ensures
        exists|i: int| holds_at(slots, full_balance_index, i),
    decreases n,
{
    if exists|j: int| 0 <= j < n && (#[trigger] slots[j]).full_balance_index == full_balance_index {
        let j = choose|j: int|
            0 <= j < n && (#[trigger] slots[j]).full_balance_index == full_balance_index;
        lemma_find_below(slots, full_balance_index, j);
    } else {
        assert(holds_at(slots, full_balance_index, n));
    }
}

/// Among the empty slots up to `n`, one is the lowest.
proof fn lemma_first_empty_below(slots: Seq<StakerMetadata>, n: int)
    requires
        0 <= n < slots.len(),
        !slots[n].spec_is_occupied(),
    ensures
        exists|i: int| is_first_empty(slots, i),
    decreases n,
{
    if exists|j: int| 0 <= j < n && !(#[trigger] slots[j]).spec_is_occupied() {
        let j = choose|j: int| 0 <= j < n && !(#[trigger] slots[j]).spec_is_occupied();
        lemma_first_empty_below(slots, j);
    } else {
        assert(is_first_empty(slots, n));
    }
}

/// Among the first `n` slots, if one holds a staker other than the excluded
/// one, then one holds the staker that leaves first among them.
proof fn lemma_smallest_below(slots: Seq<StakerMetadata>, excluded: i64, n: int)
    requires
        0 <= n <= slots.len(),
        !has_no_other(slots.subrange(0, n), excluded),
    ensures
        exists|m: int| is_smallest(slots.subrange(0, n), excluded, m),
    decreases n,
{
    let prefix = slots.subrange(0, n);
    assert(n > 0);
    let front = slots.subrange(0, n - 1);
    assert forall|j: int| 0 <= j < n - 1 implies #[trigger] front[j] == prefix[j] by {}
    let last = prefix[n - 1];
    if has_no_other(front, excluded) {
        assert(is_other(last, excluded)) by {
            if !is_other(last, excluded) {
                assert forall|j: int| 0 <= j < prefix.len() implies !is_other(
                    #[trigger] prefix[j],
                    excluded,
                ) by {
                    if j < n - 1 {
                        assert(front[j] == prefix[j]);
                    }
                }
            }
        }
        assert forall|j: int| 0 <= j < n - 1 implies !is_other(#[trigger] prefix[j], excluded) by {
            assert(front[j] == prefix[j]);
        }
        assert(is_smallest(prefix, excluded, n - 1));
    } else {
        lemma_smallest_below(slots, excluded, n - 1);
        let m0 = choose|m: int| is_smallest(front, excluded, m);
        assert(front[m0] == prefix[m0]);
        if is_other(last, excluded) && !front[m0].spec_evicted_before(last) {
            assert forall|j: int| 0 <= j < prefix.len() && is_other(
                #[trigger] prefix[j],
                excluded,
            ) implies last.spec_evicted_before(prefix[j]) by {
                if j < n - 1 {
                    assert(front[j] == prefix[j]);
                    assert(front[m0].spec_evicted_before(front[j]));
                }
            }
            assert forall|j: int| 0 <= j < n - 1 && is_other(
                #[trigger] prefix[j],
                excluded,
            ) implies !prefix[j].spec_evicted_before(last) by {
                assert(front[j] == prefix[j]);
                assert(front[m0].spec_evicted_before(front[j]));
            }
            assert(is_smallest(prefix, excluded, n - 1));
        } else {
            assert forall|j: int| 0 <= j < prefix.len() && is_other(
                #[trigger] prefix[j],
                excluded,
            ) implies prefix[m0].spec_evicted_before(prefix[j]) by {
                if j < n - 1 {
                    assert(front[j] == prefix[j]);
                }
            }
            assert forall|j: int| 0 <= j < m0 && is_other(
                #[trigger] prefix[j],
                excluded,
            ) implies !prefix[j].spec_evicted_before(prefix[m0]) by {
                assert(front[j] == prefix[j]);
            }
            assert(is_smallest(prefix, excluded, m0));
        }
    }
}

/// `spec_find` names the lowest slot that holds the staker, or says that none does.
pub proof fn lemma_find_some(slots: Seq<StakerMetadata>, full_balance_index: u64)
    ensures
        match spec_find(slots, full_balance_index) {
            Some(i) => holds_at(slots, full_balance_index, i),
            None => holds_nowhere(slots, full_balance_index),
        },
{
    if !holds_nowhere(slots, full_balance_index) {
        let j = choose|j: int|
            0 <= j < slots.len() && (#[trigger] slots[j]).full_balance_index == full_balance_index;
        lemma_find_below(slots, full_balance_index, j);
    }
}

/// `spec_first_empty` names the lowest empty slot, or says that the list is full.
pub proof fn lemma_first_empty_some(slots: Seq<StakerMetadata>)
    ensures
        match spec_first_empty(slots) {
            Some(i) => is_first_empty(slots, i),
            None => is_full(slots),
        },
{
    if !is_full(slots) {
        let j = choose|j: int| 0 <= j < slots.len() && !(#[trigger] slots[j]).spec_is_occupied();
        lemma_first_empty_below(slots, j);
    }
}

/// `spec_smallest` names the slot of the staker that leaves first, or says that
/// there is no staker to leave.
pub proof fn lemma_smallest_some(slots: Seq<StakerMetadata>, excluded: i64)
    ensures
        match spec_smallest(slots, excluded) {
            Some(m) => is_smallest(slots, excluded, m),
            None => has_no_other(slots, excluded),
        },
{
    if !has_no_other(slots, excluded) {
        assert(slots.subrange(0, slots.len() as int) =~= slots);
        lemma_smallest_below(slots, excluded, slots.len() as int);
    }
}

/// Putting a staker where it belongs keeps the number of slots, and writes at
/// most one slot: with the staker itself. A staker that leaves for it was in the
/// list.
pub proof fn lemma_place_shape(slots: Seq<StakerMetadata>, entry: StakerMetadata)
    requires
        entry.full_balance_index >= 0,
    ensures
        spec_place(slots, entry).0.len() == slots.len(),
        forall|j: int|
            0 <= j < slots.len() ==> (#[trigger] spec_place(slots, entry).0[j]) == slots[j]
                || spec_place(slots, entry).0[j].full_balance_index == entry.full_balance_index,
        spec_place(slots, entry).1 is Replaced ==> exists|m: int|
            0 <= m < slots.len() && (#[trigger] slots[m]).spec_is_occupied() && slots[m]
                == spec_place(slots, entry).1->Replaced_0,
{
    lemma_find_some(slots, entry.full_balance_index as u64);
    lemma_first_empty_some(slots);
    lemma_smallest_some(slots, -1i64);
}

/// Reducing a staker's amount keeps the number of slots, and writes at most one
/// slot: with the staker itself, or with the empty slot.
pub proof fn lemma_reduce_shape(
    slots: Seq<StakerMetadata>,
    full_balance_index: u64,
    new_stake_amount: u64,
)
    ensures
        spec_reduce(slots, full_balance_index, new_stake_amount).0.len() == slots.len(),
        forall|j: int|
            0 <= j < slots.len() ==> (#[trigger] spec_reduce(
                slots,
                full_balance_index,
                new_stake_amount,
            ).0[j]) == slots[j] || !spec_reduce(
                slots,
                full_balance_index,
                new_stake_amount,
            ).0[j].spec_is_occupied() || spec_reduce(
                slots,
                full_balance_index,
                new_stake_amount,
            ).0[j].full_balance_index == slots[j].full_balance_index,
{
    lemma_find_some(slots, full_balance_index);
}

/// Writing a slot changes the effective stake and the number of occupied slots by
/// what the new content adds and the old content added.
pub proof fn lemma_update_totals(slots: Seq<StakerMetadata>, i: int, slot: StakerMetadata)
    requires
        0 <= i < slots.len(),
    ensures
        total_stake(slots.update(i, slot)) + slots[i].spec_weight() == total_stake(slots)
            + slot.spec_weight(),
        occupied_count(slots.update(i, slot)) + (if slots[i].spec_is_occupied() {
            1nat
        } else {
            0nat
        }) == occupied_count(slots) + (if slot.spec_is_occupied() {
            1nat
        } else {
            0nat
        }),
    decreases slots.len(),
{
    let updated = slots.update(i, slot);
    if i == slots.len() - 1 {
        assert(updated.drop_last() =~= slots.drop_last());
    } else {
        assert(updated.drop_last() =~= slots.drop_last().update(i, slot));
        lemma_update_totals(slots.drop_last(), i, slot);
    }
}

/// Every occupied slot's amount is part of the effective stake, and the number of
/// occupied slots is no more than the number of slots.
pub proof fn lemma_totals_bounds(slots: Seq<StakerMetadata>)
    ensures
        occupied_count(slots) <= slots.len(),
        total_stake(slots) <= slots.len() * u64::MAX,
        forall|i: int| 0 <= i < slots.len() ==> (#[trigger] slots[i]).spec_weight() <= total_stake(slots),
        is_full(slots) <==> occupied_count(slots) == slots.len(),
    decreases slots.len(),
{
    if slots.len() > 0 {
        let front = slots.drop_last();
        lemma_totals_bounds(front);
        assert(total_stake(slots) <= slots.len() * u64::MAX) by (nonlinear_arith)
            requires
                total_stake(slots) <= (slots.len() - 1) * u64::MAX + u64::MAX,
        ;
        assert forall|i: int| 0 <= i < slots.len() implies (#[trigger] slots[i]).spec_weight()
            <= total_stake(slots) by {
            if i < slots.len() - 1 {
                assert(front[i] == slots[i]);
            }
        }
        if is_full(slots) {
            assert forall|j: int| 0 <= j < front.len() implies (#[trigger] front[j]).spec_is_occupied() by {
                assert(front[j] == slots[j]);
            }
        }
        if occupied_count(slots) == slots.len() {
            assert(is_full(front));
            assert forall|j: int| 0 <= j < slots.len() implies (#[trigger] slots[j]).spec_is_occupied() by {
                if j < slots.len() - 1 {
                    assert(front[j] == slots[j]);
                }
            }
        }
    }
}

/// What a call of `try_add_or_update` did to the list.
#[derive(Clone, Copy, Debug, PartialEq, Eq)]
pub enum TopListChange {
    /// The staker was in the list; its amount was written.
    Updated,
    /// The staker took an empty slot.
    Inserted,
    /// The staker took the slot of the staker given here, which left the list.
    Replaced(StakerMetadata),
    /// The list is full of stakers with at least as much; nothing was written.
    Unchanged,
}

/// The list after the staker of `entry` is put where it belongs, and what was
/// done for it.
///
/// A staker that is in the list has its amount written. One that is not takes the
/// lowest empty slot. Where no slot is empty, it takes the slot of the staker that
/// leaves first, but only if it has staked strictly more.
pub open spec fn spec_place(slots: Seq<StakerMetadata>, entry: StakerMetadata) -> (
    Seq<StakerMetadata>,
    TopListChange,
) {
    match spec_find(slots, entry.full_balance_index as u64) {
        Some(i) => (
            slots.update(i, StakerMetadata { stake_amount: entry.stake_amount, ..slots[i] }),
            TopListChange::Updated,
        ),
        None => match spec_first_empty(slots) {
            Some(i) => (slots.update(i, entry), TopListChange::Inserted),
            None => match spec_smallest(slots, -1i64) {
                Some(m) => if entry.stake_amount > slots[m].stake_amount {
                    (slots.update(m, entry), TopListChange::Replaced(slots[m]))
                } else {
                    (slots, TopListChange::Unchanged)
                },
                None => (slots, TopListChange::Unchanged),
            },
        },
    }
}

/// Whether `escrow` is the escrow of the staker in `slot` of the list of `vault`,
/// and stands as being in the list.
pub open spec fn is_escrow_of(escrow: StakeEscrow, slot: StakerMetadata, vault: Pubkey) -> bool {
    &&& escrow.full_balance_index == slot.full_balance_index
    &&& escrow.owner@ == slot.owner@
    &&& escrow.vault@ == vault@
    &&& escrow.in_top_list
}

/// The escrow of a staker that leaves the list, after it is credited its fees up
/// to the indices given and marked as out of the list; or the error that stops
/// this: `MissingSmallestStakeEscrow` where no escrow is given,
/// `InvalidSmallestStakeEscrow` where the one given is not the staker's, and the
/// error of the crediting.
pub open spec fn spec_settle_evicted(
    evicted: StakerMetadata,
    vault: Pubkey,
    escrow: Option<StakeEscrow>,
    cumulative_a: u128,
    cumulative_b: u128,
) -> Result<StakeEscrow, StakeForFeeError> {
    if escrow is None {
        Err(StakeForFeeError::MissingSmallestStakeEscrow)
    } else if !is_escrow_of(escrow->Some_0, evicted, vault) {
        Err(StakeForFeeError::InvalidSmallestStakeEscrow)
    } else {
        match escrow->Some_0.spec_sync(cumulative_a, cumulative_b) {
            Err(e) => Err(e),
            Ok(synced) => Ok(StakeEscrow { in_top_list: false, ..synced }),
        }
    }
}

/// What `try_add_or_update` gives: the list, the escrow handed in and what was
/// done, or the error that stops it.
pub open spec fn spec_try_add_or_update(
    slots: Seq<StakerMetadata>,
    vault: Pubkey,
    entry: StakerMetadata,
    escrow: Option<StakeEscrow>,
    cumulative_a: u128,
    cumulative_b: u128,
) -> Result<(Seq<StakerMetadata>, Option<StakeEscrow>, TopListChange), StakeForFeeError> {
    let (placed, change) = spec_place(slots, entry);
    match change {
        TopListChange::Replaced(evicted) => match spec_settle_evicted(
            evicted,
            vault,
            escrow,
            cumulative_a,
            cumulative_b,
        ) {
            Err(e) => Err(e),
            Ok(settled) => Ok((placed, Some(settled), change)),
        },
        _ => Ok((placed, escrow, change)),
    }
}

/// The list after the staker with index `full_balance_index` is taken out.
pub open spec fn spec_remove(slots: Seq<StakerMetadata>, full_balance_index: u64) -> Seq<
    StakerMetadata,
> {
    match spec_find(slots, full_balance_index) {
        Some(i) => slots.update(i, StakerMetadata::spec_empty()),
        None => slots,
    }
}

/// The list after the staker with index `full_balance_index` has reduced its
/// amount to `new_stake_amount`, and whether the staker left the list.
///
/// The staker leaves when another staker of the list has staked more than what
/// it has left; otherwise its amount is written.
pub open spec fn spec_reduce(
    slots: Seq<StakerMetadata>,
    full_balance_index: u64,
    new_stake_amount: u64,
) -> (Seq<StakerMetadata>, bool) {
    match spec_find(slots, full_balance_index) {
        None => (slots, false),
        Some(i) => {
            let other = spec_smallest(slots, full_balance_index as i64);
            if other is Some && new_stake_amount < slots[other->Some_0].stake_amount {
                (slots.update(i, StakerMetadata::spec_empty()), true)
            } else {
                (slots.update(i, StakerMetadata { stake_amount: new_stake_amount, ..slots[i] }), false)
            }
        },
    }
}

/// Where a staker is to be put in the list.
enum Placement {
    Update(usize),
    Insert(usize),
    Replace(usize),
    Keep,
}

/// The fixed number of slots whose stakers share a vault's fees.
#[derive(Debug)]
pub struct TopStakerList {
    pub metadata: TopListMetadata,
    pub stakers: Vec<StakerMetadata>,
}

impl View for TopStakerList {
    type V = Seq<StakerMetadata>;

    open spec fn view(&self) -> Seq<StakerMetadata> {
        self.stakers@
    }
}

impl TopStakerList {
    /// No staker is in two slots, and the number of slots fits in 16 bits.
    pub open spec fn wf(&self) -> bool {
        &&& distinct_stakers(self@)
        &&& self@.len() <= u16::MAX
    }

    /// Makes a list of `top_list_length` empty slots.
    pub fn new(vault: Pubkey, top_list_length: u16) -> (r: TopStakerList)
        ensures
            r.wf(),
            r.metadata.vault == vault,
            r@ == Seq::new(top_list_length as nat, |i: int| StakerMetadata::spec_empty()),
            total_stake(r@) == 0,
            occupied_count(r@) == 0,
    {
        let mut stakers: Vec<StakerMetadata> = Vec::new();
        let mut i: u16 = 0;
        while i < top_list_length
            invariant
                i <= top_list_length,
                stakers@ =~= Seq::new(i as nat, |k: int| StakerMetadata::spec_empty()),
                total_stake(stakers@) == 0,
                occupied_count(stakers@) == 0,
            decreases top_list_length - i,
        {
            let ghost before = stakers@;
            stakers.push(StakerMetadata::empty());
            assert(stakers@.drop_last() =~= before);
            i += 1;
        }
        TopStakerList { metadata: TopListMetadata { vault }, stakers }
    }

    /// Returns the slot that holds the staker with index `full_balance_index`.
    pub fn find(&self, full_balance_index: u64) -> (r: Option<usize>)
        ensures
            r is Some <==> spec_find(self@, full_balance_index) is Some,
            r is Some ==> r->Some_0 == spec_find(self@, full_balance_index)->Some_0,
            r is Some ==> holds_at(self@, full_balance_index, r->Some_0 as int),
            r is None ==> holds_nowhere(self@, full_balance_index),
    {
        if full_balance_index > 0x7fff_ffff_ffff_ffff {
            return None;
        }
        let wanted: i64 = full_balance_index as i64;
        let mut i: usize = 0;
        while i < self.stakers.len()
            invariant
                i <= self@.len(),
                wanted == full_balance_index,
                forall|j: int|
                    0 <= j < i ==> (#[trigger] self@[j]).full_balance_index != full_balance_index,
            decreases self@.len() - i,
        {
            if self.stakers[i].full_balance_index == wanted {
                proof {
                    lemma_find_unique(self@, full_balance_index, i as int);
                }
                return Some(i);
            }
            i += 1;
        }
        None
    }

    /// Returns the lowest empty slot.
    fn first_empty(&self) -> (r: Option<usize>)
        ensures
            r is Some <==> spec_first_empty(self@) is Some,
            r is Some ==> r->Some_0 == spec_first_empty(self@)->Some_0,
            r is Some ==> is_first_empty(self@, r->Some_0 as int),
            r is None ==> is_full(self@),
    {
        let mut i: usize = 0;
        while i < self.stakers.len()
            invariant
                i <= self@.len(),
                forall|j: int| 0 <= j < i ==> (#[trigger] self@[j]).spec_is_occupied(),
            decreases self@.len() - i,
        {
            if !self.stakers[i].is_occupied() {
                proof {
                    lemma_first_empty_unique(self@, i as int);
                }
                return Some(i);
            }
            i += 1;
        }
        None
    }

    /// Returns the slot of the staker that leaves first among the stakers other
    /// than the one with index `excluded`: the one with the least amount, among
    /// those with the least amount the one with the lowest index, and among those
    /// the lowest slot.
    pub fn smallest_other(&self, excluded: i64) -> (r: Option<usize>)
        ensures
            r is Some <==> spec_smallest(self@, excluded) is Some,
            r is Some ==> r->Some_0 == spec_smallest(self@, excluded)->Some_0,
            r is Some ==> is_smallest(self@, excluded, r->Some_0 as int),
            r is None ==> has_no_other(self@, excluded),
    {
        let mut best: Option<usize> = None;
        let mut i: usize = 0;
        while i < self.stakers.len()
            invariant
                i <= self@.len(),
                best is Some ==> best->Some_0 < i && is_other(
                    self@[best->Some_0 as int],
                    excluded,
                ),
                best is Some ==> forall|j: int|
                    0 <= j < i && is_other(#[trigger] self@[j], excluded)
                        ==> self@[best->Some_0 as int].spec_evicted_before(self@[j]),
                best is Some ==> forall|j: int|
                    0 <= j < best->Some_0 && is_other(#[trigger] self@[j], excluded)
                        ==> !self@[j].spec_evicted_before(self@[best->Some_0 as int]),
                best is None ==> forall|j: int|
                    0 <= j < i ==> !is_other(#[trigger] self@[j], excluded),
            decreases self@.len() - i,
        {
            let slot = &self.stakers[i];
            if slot.is_occupied() && slot.full_balance_index != excluded {
                match best {
                    None => {
                        best = Some(i);
                    },
                    Some(b) => {
                        let current = &self.stakers[b];
                        if slot.stake_amount < current.stake_amount || (slot.stake_amount
                            == current.stake_amount && slot.full_balance_index
                            < current.full_balance_index) {
                            best = Some(i);
                        }
                    },
                }
            }
            i += 1;
        }
        proof {
            if best is Some {
                lemma_smallest_unique(self@, excluded, best->Some_0 as int);
            }
        }
        best
    }

    /// Returns the slot of the staker that leaves the list first: the candidate for
    /// eviction.
    pub fn smallest_occupied(&self) -> (r: Option<usize>)
        ensures
            r is Some <==> spec_smallest(self@, -1i64) is Some,
            r is Some ==> r->Some_0 == spec_smallest(self@, -1i64)->Some_0,
            r is Some ==> is_smallest(self@, -1i64, r->Some_0 as int),
            r is None ==> is_empty_list(self@),
    {
        self.smallest_other(-1)
    }

    /// Sums the amounts staked in the occupied slots.
    fn total(&self) -> (r: u128)
        requires
            self.wf(),
        ensures
            r == total_stake(self@),
            r <= self@.len() * u64::MAX,
    {
        let mut sum: u128 = 0;
        let mut i: usize = 0;
        while i < self.stakers.len()
            invariant
                i <= self@.len(),
                self@.len() <= u16::MAX,
                sum == total_stake(self@.subrange(0, i as int)),
                sum <= i * u64::MAX,
            decreases self@.len() - i,
        {
            let slot = &self.stakers[i];
            proof {
                assert(self@.subrange(0, i + 1).drop_last() =~= self@.subrange(0, i as int));
                assert((i + 1) * u64::MAX == i * u64::MAX + u64::MAX) by (nonlinear_arith);
                assert(i * u64::MAX <= 0xffff * u64::MAX) by (nonlinear_arith)
                    requires
                        i <= 0xffff,
                ;
            }
            if slot.is_occupied() {
                sum = sum + slot.stake_amount as u128;
            }
            i += 1;
        }
        assert(self@.subrange(0, i as int) =~= self@);
        sum
    }

    /// Returns the sum of the amounts staked in the occupied slots. Fails with
    /// `MathOverflow` exactly when the sum does not fit in 64 bits.
    pub fn effective_stake_amount(&self) -> (r: Result<u64, StakeForFeeError>)
        requires
            self.wf(),
        ensures
            total_stake(self@) <= u64::MAX ==> r == Ok::<u64, StakeForFeeError>(
                total_stake(self@) as u64,
            ),
            total_stake(self@) > u64::MAX ==> r == Err::<u64, StakeForFeeError>(
                StakeForFeeError::MathOverflow,
            ),
    {
        let sum = self.total();
        if sum > 0xffff_ffff_ffff_ffff {
            Err(StakeForFeeError::MathOverflow)
        } else {
            Ok(sum as u64)
        }
    }

    /// Returns the number of occupied slots.
    pub fn current_length(&self) -> (r: u64)
        requires
            self.wf(),
        ensures
            r == occupied_count(self@),
            r <= self@.len(),
    {
        let mut count: u64 = 0;
        let mut i: usize = 0;
        while i < self.stakers.len()
            invariant
                i <= self@.len(),
                self@.len() <= u16::MAX,
                count == occupied_count(self@.subrange(0, i as int)),
                count <= i,
            decreases self@.len() - i,
        {
            proof {
                assert(self@.subrange(0, i + 1).drop_last() =~= self@.subrange(0, i as int));
            }
            if self.stakers[i].is_occupied() {
                count = count + 1;
            }
            i += 1;
        }
        assert(self@.subrange(0, i as int) =~= self@);
        count
    }

    /// Takes the staker with index `full_balance_index` out of the list and returns
    /// what its slot held; the slot is left empty. Where the staker is in no slot,
    /// nothing changes.
    pub fn remove(&mut self, full_balance_index: u64) -> (r: Option<StakerMetadata>)
        requires
            old(self).wf(),
        ensures
            final(self).wf(),
            final(self).metadata == old(self).metadata,
            final(self)@ == spec_remove(old(self)@, full_balance_index),
            match spec_find(old(self)@, full_balance_index) {
                Some(i) => r == Some(old(self)@[i]),
                None => r is None,
            },
    {
        match self.find(full_balance_index) {
            None => None,
            Some(i) => {
                let removed = self.stakers[i];
                self.stakers.set(i, StakerMetadata::empty());
                Some(removed)
            },
        }
    }

    /// Writes the reduced amount of the staker with index `full_balance_index`, or
    /// takes the staker out of the list where another staker of the list has
    /// staked more than what it has left. Returns whether the staker left the
    /// list. Where the staker is in no slot, nothing changes.
    pub fn reduce_or_remove(&mut self, full_balance_index: u64, new_stake_amount: u64) -> (r: bool)
        requires
            old(self).wf(),
        ensures
            final(self).wf(),
            final(self).metadata == old(self).metadata,
            (final(self)@, r) == spec_reduce(old(self)@, full_balance_index, new_stake_amount),
    {
        let i = match self.find(full_balance_index) {
            Some(i) => i,
            None => {
                return false;
            },
        };
        let previous = self.stakers[i];
        let leaves = match self.smallest_other(previous.full_balance_index) {
            Some(m) => new_stake_amount < self.stakers[m].stake_amount,
            None => false,
        };
        if leaves {
            self.stakers.set(i, StakerMetadata::empty());
        } else {
            self.stakers.set(i, StakerMetadata { stake_amount: new_stake_amount, ..previous });
        }
        leaves
    }

    /// Returns what the effective stake and the number of occupied slots will be
    /// once the staker with index `full_balance_index` has reduced its amount to
    /// `new_stake_amount`. Fails with `MathOverflow` exactly when that effective
    /// stake does not fit in 64 bits.
    pub fn totals_after_reduce(&self, full_balance_index: u64, new_stake_amount: u64) -> (r: Result<
        (u64, u64),
        StakeForFeeError,
    >)
        requires
            self.wf(),
        ensures
            ({
                let reduced = spec_reduce(self@, full_balance_index, new_stake_amount).0;
                if total_stake(reduced) <= u64::MAX {
                    r == Ok::<(u64, u64), StakeForFeeError>(
                        (total_stake(reduced) as u64, occupied_count(reduced) as u64),
                    )
                } else {
                    r == Err::<(u64, u64), StakeForFeeError>(StakeForFeeError::MathOverflow)
                }
            }),
    {
        let sum = self.total();
        let count = self.current_length();
        proof {
            lemma_totals_bounds(self@);
            assert(self@.len() * u64::MAX <= 0xffff * u64::MAX) by (nonlinear_arith)
                requires
                    self@.len() <= 0xffff,
            ;
        }
        let i = match self.find(full_balance_index) {
            Some(i) => i,
            None => {
                return if sum > 0xffff_ffff_ffff_ffff {
                    Err(StakeForFeeError::MathOverflow)
                } else {
                    Ok((sum as u64, count))
                };
            },
        };
        let previous = self.stakers[i];
        let leaves = match self.smallest_other(previous.full_balance_index) {
            Some(m) => new_stake_amount < self.stakers[m].stake_amount,
            None => false,
        };
        proof {
            assert(self@[i as int].spec_weight() <= total_stake(self@));
            lemma_update_totals(self@, i as int, StakerMetadata::spec_empty());
            lemma_update_totals(
                self@,
                i as int,
                StakerMetadata { stake_amount: new_stake_amount, ..self@[i as int] },
            );
        }
        let (after, count_after): (u128, u64) = if leaves {
            (sum - previous.stake_amount as u128, (count - 1) as u64)
        } else {
            (sum - previous.stake_amount as u128 + new_stake_amount as u128, count)
        };
        if after > 0xffff_ffff_ffff_ffff {
            Err(StakeForFeeError::MathOverflow)
        } else {
            Ok((after as u64, count_after))
        }
    }

    /// Decides where the staker with index `full_balance_index` and amount
    /// `new_stake_amount` is to be put.
    fn locate(&self, full_balance_index: u64, new_stake_amount: u64) -> (r: Placement)
        ensures
            match r {
                Placement::Update(i) => spec_find(self@, full_balance_index) == Some(i as int)
                    && holds_at(self@, full_balance_index, i as int),
                Placement::Insert(i) => spec_find(self@, full_balance_index) is None
                    && spec_first_empty(self@) == Some(i as int) && is_first_empty(self@, i as int),
                Placement::Replace(m) => spec_find(self@, full_balance_index) is None
                    && spec_first_empty(self@) is None && spec_smallest(self@, -1i64) == Some(
                    m as int,
                ) && is_smallest(self@, -1i64, m as int) && new_stake_amount
                    > self@[m as int].stake_amount,
                Placement::Keep => spec_find(self@, full_balance_index) is None && spec_first_empty(
                    self@,
                ) is None && (spec_smallest(self@, -1i64) is Some ==> new_stake_amount
                    <= self@[spec_smallest(self@, -1i64)->Some_0].stake_amount),
            },
    {
        if let Some(i) = self.find(full_balance_index) {
            return Placement::Update(i);
        }
        if let Some(i) = self.first_empty() {
            return Placement::Insert(i);
        }
        match self.smallest_occupied() {
            Some(m) => {
                if new_stake_amount > self.stakers[m].stake_amount {
                    Placement::Replace(m)
                } else {
                    Placement::Keep
                }
            },
            None => Placement::Keep,
        }
    }

    /// Returns what the effective stake and the number of occupied slots will be
    /// once the staker with index `full_balance_index` and amount
    /// `new_stake_amount` is put where it belongs. Fails with `MathOverflow`
    /// exactly when that effective stake does not fit in 64 bits.
    pub fn totals_after_place(&self, owner: Pubkey, full_balance_index: u64, new_stake_amount: u64)
        -> (r: Result<(u64, u64), StakeForFeeError>)
        requires
            self.wf(),
            full_balance_index <= i64::MAX,
        ensures
            ({
                let placed = spec_place(
                    self@,
                    StakerMetadata {
                        stake_amount: new_stake_amount,
                        full_balance_index: full_balance_index as i64,
                        owner,
                    },
                ).0;
                if total_stake(placed) <= u64::MAX {
                    r == Ok::<(u64, u64), StakeForFeeError>(
                        (total_stake(placed) as u64, occupied_count(placed) as u64),
                    )
                } else {
                    r == Err::<(u64, u64), StakeForFeeError>(StakeForFeeError::MathOverflow)
                }
            }),
    {
        let ghost entry = StakerMetadata {
            stake_amount: new_stake_amount,
            full_balance_index: full_balance_index as i64,
            owner,
        };
        let sum = self.total();
        let count = self.current_length();
        proof {
            lemma_totals_bounds(self@);
            assert(self@.len() * u64::MAX <= 0xffff * u64::MAX) by (nonlinear_arith)
                requires
                    self@.len() <= 0xffff,
            ;
        }
        let (after, count_after): (u128, u64) = match self.locate(
            full_balance_index,
            new_stake_amount,
        ) {
            Placement::Update(i) => {
                proof {
                    lemma_update_totals(
                        self@,
                        i as int,
                        StakerMetadata { stake_amount: new_stake_amount, ..self@[i as int] },
                    );
                    assert(self@[i as int].spec_weight() <= total_stake(self@));
                }
                (sum - self.stakers[i].stake_amount as u128 + new_stake_amount as u128, count)
            },
            Placement::Insert(i) => {
                proof {
                    lemma_update_totals(self@, i as int, entry);
                    assert(!self@[i as int].spec_is_occupied());
                    lemma_totals_bounds(self@.update(i as int, entry));
                }
                (sum + new_stake_amount as u128, count + 1)
            },
            Placement::Replace(m) => {
                proof {
                    lemma_update_totals(self@, m as int, entry);
                    assert(self@[m as int].spec_weight() <= total_stake(self@));
                }
                (sum - self.stakers[m].stake_amount as u128 + new_stake_amount as u128, count)
            },
            Placement::Keep => (sum, count),
        };
        if after > 0xffff_ffff_ffff_ffff {
            Err(StakeForFeeError::MathOverflow)
        } else {
            Ok((after as u64, count_after))
        }
    }

    /// Puts a staker with a new amount where it belongs.
    ///
    /// A staker that is in the list has its amount written. One that is not takes
    /// the lowest empty slot. Where no slot is empty, it takes the slot of the
    /// staker that leaves first, but only if it has staked strictly more; that
    /// staker's escrow must then be handed in as `smallest_escrow`: it is credited
    /// its fees up to the indices given, and marked as out of the list.
    ///
    /// Fails with `MissingSmallestStakeEscrow` when that escrow is needed and not
    /// given, with `InvalidSmallestStakeEscrow` when the escrow given is not the one
    /// of the staker that leaves, and with the error of the crediting when that
    /// fails. On an error nothing is changed.
    pub fn try_add_or_update(
        &mut self,
        owner: Pubkey,
        full_balance_index: u64,
        new_stake_amount: u64,
        smallest_escrow: Option<&mut StakeEscrow>,
        cumulative_a: u128,
        cumulative_b: u128,
    ) -> (r: Result<TopListChange, StakeForFeeError>)
        requires
            old(self).wf(),
            full_balance_index <= i64::MAX,
        ensures
            final(self).wf(),
            final(self).metadata == old(self).metadata,
            r is Ok && r->Ok_0 is Replaced ==> exists|m: int|
                0 <= m < old(self)@.len() && (#[trigger] old(self)@[m]).spec_is_occupied() && old(
                    self,
                )@[m] == r->Ok_0->Replaced_0,
            match spec_try_add_or_update(
                old(self)@,
                old(self).metadata.vault,
                StakerMetadata {
                    stake_amount: new_stake_amount,
                    full_balance_index: full_balance_index as i64,
                    owner,
                },
                match smallest_escrow {
                    Some(escrow) => Some(*escrow),
                    None => None,
                },
                cumulative_a,
                cumulative_b,
            ) {
                Ok((slots, escrow_after, change)) => {
                    &&& r == Ok::<TopListChange, StakeForFeeError>(change)
                    &&& final(self)@ == slots
                    &&& escrow_after == match smallest_escrow {
                        Some(escrow) => Some(*final(escrow)),
                        None => None,
                    }
                },
                Err(e) => {
                    &&& r == Err::<TopListChange, StakeForFeeError>(e)
                    &&& final(self)@ == old(self)@
                    &&& match smallest_escrow {
                        Some(escrow) => *final(escrow) == *escrow,
                        None => true,
                    }
                },
            },
    {
        let entry = StakerMetadata {
            stake_amount: new_stake_amount,
            full_balance_index: full_balance_index as i64,
            owner,
        };
        match self.locate(full_balance_index, new_stake_amount) {
            Placement::Update(i) => {
                let previous = self.stakers[i];
                self.stakers.set(i, StakerMetadata { stake_amount: new_stake_amount, ..previous });
                Ok(TopListChange::Updated)
            },
            Placement::Insert(i) => {
                self.stakers.set(i, entry);
                proof {
                    assert(holds_nowhere(old(self)@, full_balance_index));
                }
                Ok(TopListChange::Inserted)
            },
            Placement::Keep => Ok(TopListChange::Unchanged),
            Placement::Replace(m) => {
                let smallest = self.stakers[m];
                let escrow = match smallest_escrow {
                    Some(escrow) => escrow,
                    None => {
                        return Err(StakeForFeeError::MissingSmallestStakeEscrow);
                    },
                };
                if !(escrow.full_balance_index <= 0x7fff_ffff_ffff_ffff
                    && escrow.full_balance_index as i64 == smallest.full_balance_index
                    && escrow.owner.equals(&smallest.owner) && escrow.vault.equals(
                    &self.metadata.vault,
                ) && escrow.in_top_list) {
                    return Err(StakeForFeeError::InvalidSmallestStakeEscrow);
                }
                let mut settled = *escrow;
                settled.sync(cumulative_a, cumulative_b)?;
                settled.in_top_list = false;
                *escrow = settled;
                self.stakers.set(m, entry);
                proof {
                    assert(holds_nowhere(old(self)@, full_balance_index));
                }
                Ok(TopListChange::Replaced(smallest))
            },
        }
    }
}

/// Whether no slot holds a staker.
pub open spec fn is_empty_list(slots: Seq<StakerMetadata>) -> bool {
    forall|j: int| 0 <= j < slots.len() ==> !(#[trigger] slots[j]).spec_is_occupied()
}

} // verus!
