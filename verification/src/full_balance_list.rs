use crate::constant::FULL_BALANCE_LIST_HARD_LIMIT;
use crate::errors::StakeForFeeError;
use crate::pubkey::Pubkey;
use vstd::prelude::*;

verus! {

/// Heading of a vault's full balance list.
#[derive(Clone, Copy, Debug, PartialEq, Eq)]
pub struct FullBalanceListMetadata {
    /// The vault the list belongs to.
    pub vault: Pubkey,
    /// Number of entries in the list.
    pub length: u64,
}

/// One entry of the full balance list: what one participant has staked.
#[derive(Clone, Copy, Debug, PartialEq, Eq)]
pub struct StakerBalance {
    /// Amount staked and earning.
    pub balance: u64,
    /// Who the entry belongs to.
    pub owner: Pubkey,
    /// Whether the participant is in the top staker list.
    pub in_top: bool,
}

impl StakerBalance {
    /// An entry is in use while it holds a balance or stands in the top list.
    pub open spec fn spec_is_occupied(self) -> bool {
        self.balance > 0 || self.in_top
    }

    /// Tells whether the entry is in use. An entry that is not may be handed to
    /// the next participant that registers.
    pub fn is_occupied(&self) -> (r: bool)
        ensures
            r == self.spec_is_occupied(),
    {
        self.balance > 0 || self.in_top
    }

    /// The entry a participant gets on registration: no balance, not in the top list.
    pub open spec fn spec_fresh(owner: Pubkey) -> StakerBalance {
        StakerBalance { balance: 0, owner, in_top: false }
    }
}

/// How a registration found its entry.
#[derive(Clone, Copy, Debug, PartialEq, Eq, Structural)]
pub enum RegistrationKind {
    /// The owner already had an entry in use.
    Existing,
    /// An entry that was no longer in use was handed to the owner.
    Reclaimed,
    /// A new entry was added at the end of the list.
    Appended,
}

/// The result of a registration: the owner's index, and how it was found.
#[derive(Clone, Copy, Debug, PartialEq, Eq, Structural)]
pub struct Registration {
    pub index: u64,
    pub kind: RegistrationKind,
}

/// Whether `i` is the lowest index of an entry in use that belongs to `owner`.
pub open spec fn is_first_owned(entries: Seq<StakerBalance>, owner: Pubkey, i: int) -> bool {
    &&& 0 <= i < entries.len()
    &&& entries[i].spec_is_occupied()
    &&& entries[i].owner@ == owner@
    &&& forall|j: int|
        0 <= j < i ==> !(#[trigger] entries[j].spec_is_occupied() && entries[j].owner@ == owner@)
}

/// Whether no entry in use belongs to `owner`.
pub open spec fn owns_nothing(entries: Seq<StakerBalance>, owner: Pubkey) -> bool {
    forall|j: int|
        0 <= j < entries.len() ==> !(#[trigger] entries[j].spec_is_occupied() && entries[j].owner@
            == owner@)
}

/// Whether `i` is the lowest index of an entry that is not in use.
pub open spec fn is_first_reclaimable(entries: Seq<StakerBalance>, i: int) -> bool {
    &&& 0 <= i < entries.len()
    &&& !entries[i].spec_is_occupied()
    &&& forall|j: int| 0 <= j < i ==> #[trigger] entries[j].spec_is_occupied()
}

/// Whether every entry is in use.
pub open spec fn all_occupied(entries: Seq<StakerBalance>) -> bool {
    forall|j: int| 0 <= j < entries.len() ==> #[trigger] entries[j].spec_is_occupied()
}

/// Whether registering `owner` on `before` can give `registration` and leave `after`.
///
/// The three kinds exclude each other, and the index of each is determined by
/// `before`, so at most one registration meets this for a given list and owner.
pub open spec fn registers(
    before: Seq<StakerBalance>,
    owner: Pubkey,
    registration: Registration,
    after: Seq<StakerBalance>,
) -> bool {
    match registration.kind {
        RegistrationKind::Existing => {
            &&& is_first_owned(before, owner, registration.index as int)
            &&& after == before
        },
        RegistrationKind::Reclaimed => {
            &&& owns_nothing(before, owner)
            &&& is_first_reclaimable(before, registration.index as int)
            &&& after == before.update(registration.index as int, StakerBalance::spec_fresh(owner))
        },
        RegistrationKind::Appended => {
            &&& owns_nothing(before, owner)
            &&& all_occupied(before)
            &&& before.len() < FULL_BALANCE_LIST_HARD_LIMIT
            &&& registration.index == before.len()
            &&& after == before.push(StakerBalance::spec_fresh(owner))
        },
    }
}

/// Whether registering `owner` on `entries` is refused: no entry is the owner's, none
/// is free, and the list has reached its limit.
pub open spec fn registration_refused(entries: Seq<StakerBalance>, owner: Pubkey) -> bool {
    &&& owns_nothing(entries, owner)
    &&& all_occupied(entries)
    &&& entries.len() >= FULL_BALANCE_LIST_HARD_LIMIT
}

/// The list of every participant a vault has seen, with what each has staked.
///
/// The list only grows; an entry that is no longer in use is handed to the next
/// participant that registers.
#[derive(Debug)]
pub struct FullBalanceList {
    pub metadata: FullBalanceListMetadata,
    pub staker_balances: Vec<StakerBalance>,
}

impl View for FullBalanceList {
    type V = Seq<StakerBalance>;

    open spec fn view(&self) -> Seq<StakerBalance> {
        self.staker_balances@
    }
}

impl FullBalanceList {
    /// The heading counts the entries, and the list is within its limit.
    pub open spec fn wf(&self) -> bool {
        &&& self.metadata.length == self.staker_balances@.len()
        &&& self.staker_balances@.len() <= FULL_BALANCE_LIST_HARD_LIMIT
    }

    /// Makes the empty list of a vault.
    pub fn new(vault: Pubkey) -> (r: FullBalanceList)
        ensures
            r.wf(),
            r@ == Seq::<StakerBalance>::empty(),
            r.metadata.vault == vault,
    {
        FullBalanceList {
            metadata: FullBalanceListMetadata { vault, length: 0 },
            staker_balances: Vec::new(),
        }
    }

    /// Returns the number of entries.
    pub fn len(&self) -> (r: u64)
        requires
            self.wf(),
        ensures
            r == self@.len(),
    {
        self.metadata.length
    }

    /// Returns the entry at `index`, if there is one.
    pub fn get(&self, index: u64) -> (r: Option<StakerBalance>)
        requires
            self.wf(),
        ensures
            index < self@.len() ==> r == Some(self@[index as int]),
            index >= self@.len() ==> r is None,
    {
        if index < self.metadata.length {
            Some(self.staker_balances[index as usize])
        } else {
            None
        }
    }

    /// Writes the balance and the top list flag of the entry at `index`; the owner
    /// of the entry and all other entries stay as they are.
    pub fn set_balance(&mut self, index: u64, new_balance: u64, in_top: bool)
        requires
            old(self).wf(),
            index < old(self)@.len(),
        ensures
            final(self).wf(),
            final(self).metadata == old(self).metadata,
            final(self)@ == old(self)@.update(
                index as int,
                StakerBalance { balance: new_balance, owner: old(self)@[index as int].owner, in_top },
            ),
    {
        let owner = self.staker_balances[index as usize].owner;
        self.staker_balances.set(index as usize, StakerBalance { balance: new_balance, owner, in_top });
    }

    /// Returns the indices of the entries in use, in rising order.
    pub fn iter_occupied(&self) -> (r: Vec<u64>)
        requires
            self.wf(),
        ensures
            forall|k: int| 0 <= k < r@.len() ==> r@[k] < self@.len() && self@[r@[k] as int].spec_is_occupied(),
            forall|k: int, l: int| 0 <= k < l < r@.len() ==> r@[k] < r@[l],
            forall|i: int|
                0 <= i < self@.len() && self@[i].spec_is_occupied() ==> exists|k: int|
                    0 <= k < r@.len() && #[trigger] r@[k] == i,
    {
        let mut out: Vec<u64> = Vec::new();
        let mut i: u64 = 0;
        while i < self.metadata.length
            invariant
                self.wf(),
                i <= self@.len(),
                forall|k: int| 0 <= k < out@.len() ==> out@[k] < i && self@[out@[k] as int].spec_is_occupied(),
                forall|k: int, l: int| 0 <= k < l < out@.len() ==> out@[k] < out@[l],
                forall|j: int|
                    0 <= j < i && self@[j].spec_is_occupied() ==> exists|k: int|
                        0 <= k < out@.len() && #[trigger] out@[k] == j,
            decreases self@.len() - i,
        {
            if self.staker_balances[i as usize].is_occupied() {
                let ghost before = out@;
                out.push(i);
                assert forall|j: int| 0 <= j < i + 1 && self@[j].spec_is_occupied() implies exists|
                    k: int,
                |
                    0 <= k < out@.len() && #[trigger] out@[k] == j by {
                    if j < i {
                        let k = choose|k: int| 0 <= k < before.len() && #[trigger] before[k] == j;
                        assert(out@[k] == j);
                    } else {
                        assert(out@[before.len() as int] == j);
                    }
                }
            }
            i += 1;
        }
        out
    }

    /// Finds the lowest entry in use that belongs to `owner`.
    fn find_owned(&self, owner: &Pubkey) -> (r: Option<u64>)
        requires
            self.wf(),
        ensures
            r is Some ==> is_first_owned(self@, *owner, r->Some_0 as int),
            r is None ==> owns_nothing(self@, *owner),
    {
        let mut i: u64 = 0;
        while i < self.metadata.length
            invariant
                self.wf(),
                i <= self@.len(),
                forall|j: int|
                    0 <= j < i ==> !(#[trigger] self@[j].spec_is_occupied() && self@[j].owner@
                        == owner@),
            decreases self@.len() - i,
        {
            let entry = &self.staker_balances[i as usize];
            if entry.is_occupied() && entry.owner.equals(owner) {
                return Some(i);
            }
            i += 1;
        }
        None
    }

    /// Finds the lowest entry that is not in use.
    fn find_reclaimable(&self) -> (r: Option<u64>)
        requires
            self.wf(),
        ensures
            r is Some ==> is_first_reclaimable(self@, r->Some_0 as int),
            r is None ==> all_occupied(self@),
    {
        let mut i: u64 = 0;
        while i < self.metadata.length
            invariant
                self.wf(),
                i <= self@.len(),
                forall|j: int| 0 <= j < i ==> #[trigger] self@[j].spec_is_occupied(),
            decreases self@.len() - i,
        {
            if !self.staker_balances[i as usize].is_occupied() {
                return Some(i);
            }
            i += 1;
        }
        None
    }

    /// Gives `owner` an entry and returns its index.
    ///
    /// An owner that has an entry in use keeps it. Otherwise the lowest entry that
    /// is not in use is handed over, and where every entry is in use a new one is
    /// added at the end. Fails with `FullBalanceListFull`, leaving the list as it
    /// was, exactly when a new entry is needed and the list has reached its limit.
    pub fn register(&mut self, owner: Pubkey) -> (r: Result<Registration, StakeForFeeError>)
        requires
            old(self).wf(),
        ensures
            final(self).wf(),
            final(self).metadata.vault == old(self).metadata.vault,
            match r {
                Ok(registration) => registers(old(self)@, owner, registration, final(self)@),
                Err(e) => e == StakeForFeeError::FullBalanceListFull && registration_refused(
                    old(self)@,
                    owner,
                ) && final(self)@ == old(self)@,
            },
    {
        if let Some(index) = self.find_owned(&owner) {
            return Ok(Registration { index, kind: RegistrationKind::Existing });
        }
        let fresh = StakerBalance { balance: 0, owner, in_top: false };
        if let Some(index) = self.find_reclaimable() {
            self.staker_balances.set(index as usize, fresh);
            return Ok(Registration { index, kind: RegistrationKind::Reclaimed });
        }
        if self.metadata.length >= FULL_BALANCE_LIST_HARD_LIMIT {
            return Err(StakeForFeeError::FullBalanceListFull);
        }
        let index = self.metadata.length;
        self.staker_balances.push(fresh);
        self.metadata.length = index + 1;
        Ok(Registration { index, kind: RegistrationKind::Appended })
    }
}

} // verus!
