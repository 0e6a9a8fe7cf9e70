use crate::errors::StakeForFeeError;
use crate::full_balance_list::FullBalanceList;
use crate::full_balance_list::StakerBalance;
use crate::operations::escrow_matches;
use crate::operations::system_wf;
use crate::pubkey::Pubkey;
use crate::stake_escrow::StakeEscrow;
use crate::top_list::lemma_find_some;
use crate::top_list::lemma_place_shape;
use crate::top_list::lemma_reduce_shape;
use crate::top_list::lemma_totals_bounds;
use crate::top_list::occupied_count;
use crate::top_list::spec_find;
use crate::top_list::spec_place;
use crate::top_list::spec_reduce;
use crate::top_list::spec_try_add_or_update;
use crate::top_list::total_stake;
use crate::top_list::StakerMetadata;
use crate::top_list::TopListChange;
use crate::top_list::TopStakerList;
use crate::unstake::Unstake;
use crate::vault::FeeEmission;
use crate::vault::FeeVault;
use crate::vault::Metrics;
use crate::vault::PulledFee;
use crate::fee_drip::TopStakerInfo;
use vstd::prelude::*;

verus! {

/// Everything an operation of a staker works on, as values: the vault, the
/// entries of its full balance list, the slots of its top staker list, the
/// staker's escrow, and the escrow handed in for the staker that may have to
/// leave the top list.
pub struct Snapshot {
    pub vault: FeeVault,
    pub balances: Seq<StakerBalance>,
    pub stakers: Seq<StakerMetadata>,
    pub escrow: StakeEscrow,
    pub smallest_escrow: Option<StakeEscrow>,
}

/// What a stake reports.
#[derive(Clone, Copy, Debug, PartialEq, Eq)]
pub struct UserStake {
    /// What the update of the vault's fees did before the stake.
    pub fee_emission: FeeEmission,
    /// What was done for the staker in the top list.
    pub top_list_change: TopListChange,
    /// The amount that was staked.
    pub stake_amount: u64,
    /// What the escrow has staked now.
    pub total_stake_amount: u64,
}

/// The vault with its fees brought up to `now` and the escrow credited up to the
/// indices, with what the update did; or the error that stops this.
///
/// The escrow must be one of the vault, with an entry of its own in the full
/// balance list: `InvalidStakeEscrow` otherwise.
pub open spec fn spec_prepare(
    vault: FeeVault,
    vault_key: Pubkey,
    balances: Seq<StakerBalance>,
    escrow: StakeEscrow,
    now: i64,
    pulled: Option<PulledFee>,
) -> Result<(FeeVault, StakeEscrow, FeeEmission), StakeForFeeError> {
    if !escrow_matches(vault_key, balances, escrow) {
        Err(StakeForFeeError::InvalidStakeEscrow)
    } else {
        match vault.spec_update_fees(now, pulled) {
            Err(e) => Err(e),
            Ok((updated, fee_emission)) => match escrow.spec_sync(
                updated.top_staker_info.cumulative_fee_a_per_liquidity,
                updated.top_staker_info.cumulative_fee_b_per_liquidity,
            ) {
                Err(e) => Err(e),
                Ok(synced) => Ok((updated, synced, fee_emission)),
            },
        }
    }
}

/// The vault with the sum and the count of the slots given.
pub open spec fn with_totals(vault: FeeVault, stakers: Seq<StakerMetadata>) -> FeeVault {
    FeeVault {
        top_staker_info: TopStakerInfo {
            effective_stake_amount: total_stake(stakers) as u64,
            current_length: occupied_count(stakers) as u64,
            ..vault.top_staker_info
        },
        ..vault
    }
}

/// The entries of the full balance list after a staker's amount and its place
/// in or out of the top list are written, and the staker that left the top
/// list, if one did, is marked as out of it.
pub open spec fn spec_balances_after(
    balances: Seq<StakerBalance>,
    full_balance_index: u64,
    new_stake_amount: u64,
    change: TopListChange,
) -> Seq<StakerBalance> {
    let written = balances.update(
        full_balance_index as int,
        StakerBalance {
            balance: new_stake_amount,
            owner: balances[full_balance_index as int].owner,
            in_top: !(change is Unchanged),
        },
    );
    match change {
        TopListChange::Replaced(evicted) => written.update(
            evicted.full_balance_index as int,
            StakerBalance { in_top: false, ..written[evicted.full_balance_index as int] },
        ),
        _ => written,
    }
}

/// The state after the staker of `escrow`, with the amount `new_stake_amount`,
/// is put where it belongs in the top list, with what was done for it; or the
/// error that stops this: `MathOverflow` where the effective stake would not fit
/// in 64 bits, and the errors of `try_add_or_update`.
///
/// `vault` and `escrow` are the vault and the escrow as the operation has them
/// so far; the lists and the escrow of the staker that may leave are those of
/// `state`.
pub open spec fn spec_enter(
    state: Snapshot,
    vault_key: Pubkey,
    vault: FeeVault,
    escrow: StakeEscrow,
    new_stake_amount: u64,
) -> Result<(Snapshot, TopListChange), StakeForFeeError> {
    let entry = StakerMetadata {
        stake_amount: new_stake_amount,
        full_balance_index: escrow.full_balance_index as i64,
        owner: escrow.owner,
    };
    if total_stake(spec_place(state.stakers, entry).0) > u64::MAX {
        Err(StakeForFeeError::MathOverflow)
    } else {
        match spec_try_add_or_update(
            state.stakers,
            vault_key,
            entry,
            state.smallest_escrow,
            vault.top_staker_info.cumulative_fee_a_per_liquidity,
            vault.top_staker_info.cumulative_fee_b_per_liquidity,
        ) {
            Err(e) => Err(e),
            Ok((stakers, smallest_escrow, change)) => Ok(
                (
                    Snapshot {
                        vault: with_totals(vault, stakers),
                        balances: spec_balances_after(
                            state.balances,
                            escrow.full_balance_index,
                            new_stake_amount,
                            change,
                        ),
                        stakers,
                        escrow: StakeEscrow {
                            stake_amount: new_stake_amount,
                            in_top_list: !(change is Unchanged),
                            ..escrow
                        },
                        smallest_escrow,
                    },
                    change,
                ),
            ),
        }
    }
}

/// The state after a stake of `amount`, with what it reports, or the error that
/// stops it.
///
/// The vault's fees are brought up to `now` and the escrow is credited first.
/// The amount is then added to the escrow's stake and to the vault's total, the
/// staker's entry in the full balance list is written, and the staker is put
/// where it belongs in the top list.
pub open spec fn spec_stake(
    state: Snapshot,
    vault_key: Pubkey,
    amount: u64,
    now: i64,
    pulled: Option<PulledFee>,
) -> Result<(Snapshot, UserStake), StakeForFeeError> {
    match spec_prepare(state.vault, vault_key, state.balances, state.escrow, now, pulled) {
        Err(e) => Err(e),
        Ok((vault, escrow, fee_emission)) => {
            if escrow.stake_amount + amount > u64::MAX || vault.metrics.total_staked_amount + amount
                > u64::MAX {
                Err(StakeForFeeError::MathOverflow)
            } else {
                let new_stake_amount = (escrow.stake_amount + amount) as u64;
                let counted = FeeVault {
                    metrics: Metrics {
                        total_staked_amount: (vault.metrics.total_staked_amount + amount) as u64,
                        ..vault.metrics
                    },
                    ..vault
                };
                match spec_enter(state, vault_key, counted, escrow, new_stake_amount) {
                    Err(e) => Err(e),
                    Ok((after, top_list_change)) => Ok(
                        (
                            after,
                            UserStake {
                                fee_emission,
                                top_list_change,
                                stake_amount: amount,
                                total_stake_amount: new_stake_amount,
                            },
                        ),
                    ),
                }
            }
        },
    }
}

/// What an unstake request reports.
#[derive(Clone, Copy, Debug, PartialEq, Eq)]
pub struct UnstakeCreated {
    /// What the update of the vault's fees did before the request.
    pub fee_emission: FeeEmission,
    /// The ticket that the request made.
    pub unstake: Unstake,
    /// Whether the request took the staker out of the top list.
    pub left_top_list: bool,
    /// What the escrow has staked now.
    pub new_stake_escrow_amount: u64,
    /// What the escrow is unstaking now.
    pub new_stake_escrow_ongoing_total_unstake_amount: u64,
}

/// What the cancelling of an unstake request reports.
#[derive(Clone, Copy, Debug, PartialEq, Eq)]
pub struct CancelUnstakeSucceed {
    /// What the update of the vault's fees did before the cancelling.
    pub fee_emission: FeeEmission,
    /// What was done for the staker in the top list.
    pub top_list_change: TopListChange,
    /// The amount that went back to the stake.
    pub amount: u64,
    /// What the escrow has staked now.
    pub new_stake_escrow_amount: u64,
    /// What the escrow is unstaking now.
    pub new_stake_escrow_ongoing_total_unstake_amount: u64,
}

/// The state after a request to unstake `unstake_amount`, with what it reports,
/// or the error that stops it.
///
/// The escrow must have that much staked beyond what it is already unstaking:
/// `InsufficientStakeAmount` otherwise. The vault's fees are brought up to `now`
/// and the escrow is credited. The amount then stops earning at once: it leaves
/// the escrow's stake, the staker's entry in the full balance list is written,
/// and in the top list the staker's amount is reduced, or the staker leaves. The
/// ticket releases the amount once the vault's lock duration has passed.
pub open spec fn spec_request_unstake(
    state: Snapshot,
    vault_key: Pubkey,
    escrow_key: Pubkey,
    unstake_amount: u64,
    now: i64,
    pulled: Option<PulledFee>,
) -> Result<(Snapshot, UnstakeCreated), StakeForFeeError> {
    if !escrow_matches(vault_key, state.balances, state.escrow) {
        Err(StakeForFeeError::InvalidStakeEscrow)
    } else if state.escrow.stake_amount - state.escrow.ongoing_total_partial_unstake_amount
        < unstake_amount {
        Err(StakeForFeeError::InsufficientStakeAmount)
    } else {
        match spec_prepare(state.vault, vault_key, state.balances, state.escrow, now, pulled) {
            Err(e) => Err(e),
            Ok((vault, escrow, fee_emission)) => {
                let index = escrow.full_balance_index;
                let new_stake_amount = (escrow.stake_amount - unstake_amount) as u64;
                let (stakers, left_top_list) = spec_reduce(state.stakers, index, new_stake_amount);
                if vault.metrics.ongoing_total_partial_unstake_amount + unstake_amount > u64::MAX
                    || now + vault.configuration.unstake_lock_duration > i64::MAX || total_stake(
                    stakers,
                ) > u64::MAX {
                    Err(StakeForFeeError::MathOverflow)
                } else {
                    let in_top = spec_find(state.stakers, index) is Some && !left_top_list;
                    let ongoing = (escrow.ongoing_total_partial_unstake_amount
                        + unstake_amount) as u64;
                    let unstake = Unstake {
                        stake_escrow: escrow_key,
                        unstake_amount,
                        created_at: now,
                        release_at: (now + vault.configuration.unstake_lock_duration) as i64,
                    };
                    Ok(
                        (
                            Snapshot {
                                vault: with_totals(
                                    FeeVault {
                                        metrics: Metrics {
                                            ongoing_total_partial_unstake_amount: (
                                            vault.metrics.ongoing_total_partial_unstake_amount
                                                + unstake_amount) as u64,
                                            ..vault.metrics
                                        },
                                        ..vault
                                    },
                                    stakers,
                                ),
                                balances: state.balances.update(
                                    index as int,
                                    StakerBalance {
                                        balance: new_stake_amount,
                                        owner: state.balances[index as int].owner,
                                        in_top,
                                    },
                                ),
                                stakers,
                                escrow: StakeEscrow {
                                    stake_amount: new_stake_amount,
                                    ongoing_total_partial_unstake_amount: ongoing,
                                    in_top_list: in_top,
                                    ..escrow
                                },
                                smallest_escrow: state.smallest_escrow,
                            },
                            UnstakeCreated {
                                fee_emission,
                                unstake,
                                left_top_list,
                                new_stake_escrow_amount: new_stake_amount,
                                new_stake_escrow_ongoing_total_unstake_amount: ongoing,
                            },
                        ),
                    )
                }
            },
        }
    }
}

/// The state after an unstake request is cancelled, with what it reports, or the
/// error that stops it.
///
/// The ticket must be one of the escrow: `InvalidStakeEscrow` otherwise. The
/// vault's fees are brought up to `now` and the escrow is credited. The
/// ticket's amount then goes back from what the escrow is unstaking to its
/// stake, the staker's entry in the full balance list is written, and the staker
/// is put where it belongs in the top list. Cancelling is allowed at any time.
pub open spec fn spec_cancel_unstake(
    state: Snapshot,
    vault_key: Pubkey,
    escrow_key: Pubkey,
    unstake: Unstake,
    now: i64,
    pulled: Option<PulledFee>,
) -> Result<(Snapshot, CancelUnstakeSucceed), StakeForFeeError> {
    if unstake.stake_escrow@ != escrow_key@ {
        Err(StakeForFeeError::InvalidStakeEscrow)
    } else {
        match spec_prepare(state.vault, vault_key, state.balances, state.escrow, now, pulled) {
            Err(e) => Err(e),
            Ok((vault, escrow, fee_emission)) => {
                let amount = unstake.unstake_amount;
                if escrow.stake_amount + amount > u64::MAX
                    || escrow.ongoing_total_partial_unstake_amount < amount
                    || vault.metrics.ongoing_total_partial_unstake_amount < amount {
                    Err(StakeForFeeError::MathOverflow)
                } else {
                    let new_stake_amount = (escrow.stake_amount + amount) as u64;
                    let ongoing = (escrow.ongoing_total_partial_unstake_amount - amount) as u64;
                    let counted = FeeVault {
                        metrics: Metrics {
                            ongoing_total_partial_unstake_amount: (
                            vault.metrics.ongoing_total_partial_unstake_amount - amount) as u64,
                            ..vault.metrics
                        },
                        ..vault
                    };
                    let restored = StakeEscrow {
                        ongoing_total_partial_unstake_amount: ongoing,
                        ..escrow
                    };
                    match spec_enter(state, vault_key, counted, restored, new_stake_amount) {
                        Err(e) => Err(e),
                        Ok((after, top_list_change)) => Ok(
                            (
                                after,
                                CancelUnstakeSucceed {
                                    fee_emission,
                                    top_list_change,
                                    amount,
                                    new_stake_escrow_amount: new_stake_amount,
                                    new_stake_escrow_ongoing_total_unstake_amount: ongoing,
                                },
                            ),
                        ),
                    }
                }
            },
        }
    }
}

/// The values an operation works on.
pub open spec fn snapshot(
    vault: FeeVault,
    full_balance_list: &FullBalanceList,
    top_staker_list: &TopStakerList,
    escrow: StakeEscrow,
    smallest_escrow: Option<StakeEscrow>,
) -> Snapshot {
    Snapshot {
        vault,
        balances: full_balance_list@,
        stakers: top_staker_list@,
        escrow,
        smallest_escrow,
    }
}

/// Whether the lists of a vault are in order: each is well formed and names the
/// vault, and every staker of the top list has an entry in the full balance list.
pub open spec fn lists_wf(
    vault_key: Pubkey,
    full_balance_list: &FullBalanceList,
    top_staker_list: &TopStakerList,
) -> bool {
    &&& full_balance_list.wf()
    &&& full_balance_list.metadata.vault@ == vault_key@
    &&& top_staker_list.wf()
    &&& top_staker_list.metadata.vault@ == vault_key@
    &&& forall|i: int|
        0 <= i < top_staker_list@.len() && (#[trigger] top_staker_list@[i]).spec_is_occupied()
            ==> top_staker_list@[i].full_balance_index < full_balance_list@.len()
}

/// Checks the escrow, brings the vault's fees up to `now` and credits the
/// escrow, on copies: returns the vault and the escrow as they are to become.
fn prepare(
    vault: &FeeVault,
    vault_key: &Pubkey,
    full_balance_list: &FullBalanceList,
    stake_escrow: &StakeEscrow,
    now: i64,
    pulled: Option<PulledFee>,
) -> (r: Result<(FeeVault, StakeEscrow, FeeEmission), StakeForFeeError>)
    requires
        full_balance_list.wf(),
    ensures
        r == spec_prepare(*vault, *vault_key, full_balance_list@, *stake_escrow, now, pulled),
{
    if !check_escrow(vault_key, full_balance_list, stake_escrow) {
        return Err(StakeForFeeError::InvalidStakeEscrow);
    }
    let mut updated = *vault;
    let fee_emission = updated.update_fees(now, pulled)?;
    let mut synced = *stake_escrow;
    synced.sync(
        updated.top_staker_info.cumulative_fee_a_per_liquidity,
        updated.top_staker_info.cumulative_fee_b_per_liquidity,
    )?;
    Ok((updated, synced, fee_emission))
}

/// Tells whether the escrow is one of the vault, with an entry of its own in
/// the full balance list.
fn check_escrow(
    vault_key: &Pubkey,
    full_balance_list: &FullBalanceList,
    stake_escrow: &StakeEscrow,
) -> (r: bool)
    requires
        full_balance_list.wf(),
    ensures
        r == escrow_matches(*vault_key, full_balance_list@, *stake_escrow),
{
    if !stake_escrow.vault.equals(vault_key) {
        return false;
    }
    match full_balance_list.get(stake_escrow.full_balance_index) {
        None => false,
        Some(entry) => entry.owner.equals(&stake_escrow.owner),
    }
}

/// Puts the staker of `escrow`, with the amount `new_stake_amount`, where it
/// belongs in the top list, and writes the full balance list. Returns the vault
/// and the escrow with what follows from it. On an error nothing is changed.
fn enter(
    vault_key: &Pubkey,
    vault: FeeVault,
    full_balance_list: &mut FullBalanceList,
    top_staker_list: &mut TopStakerList,
    escrow: StakeEscrow,
    smallest_escrow: Option<&mut StakeEscrow>,
    new_stake_amount: u64,
) -> (r: Result<(FeeVault, StakeEscrow, TopListChange), StakeForFeeError>)
    requires
        lists_wf(*vault_key, old(full_balance_list), old(top_staker_list)),
        escrow.full_balance_index < old(full_balance_list)@.len(),
    ensures
        lists_wf(*vault_key, final(full_balance_list), final(top_staker_list)),
        final(full_balance_list)@.len() == old(full_balance_list)@.len(),
        final(top_staker_list)@.len() == old(top_staker_list)@.len(),
        r is Ok ==> r->Ok_0.0.top_staker_info.effective_stake_amount == total_stake(
            final(top_staker_list)@,
        ) && r->Ok_0.0.top_staker_info.current_length == occupied_count(final(top_staker_list)@),
        match spec_enter(
            Snapshot {
                vault,
                balances: old(full_balance_list)@,
                stakers: old(top_staker_list)@,
                escrow,
                smallest_escrow: match smallest_escrow {
                    Some(e) => Some(*e),
                    None => None,
                },
            },
            *vault_key,
            vault,
            escrow,
            new_stake_amount,
        ) {
            Ok((after, change)) => {
                &&& r == Ok::<(FeeVault, StakeEscrow, TopListChange), StakeForFeeError>(
                    (after.vault, after.escrow, change),
                )
                &&& final(full_balance_list)@ == after.balances
                &&& final(top_staker_list)@ == after.stakers
                &&& after.smallest_escrow == match smallest_escrow {
                    Some(e) => Some(*final(e)),
                    None => None,
                }
            },
            Err(e) => {
                &&& r == Err::<(FeeVault, StakeEscrow, TopListChange), StakeForFeeError>(e)
                &&& final(full_balance_list)@ == old(full_balance_list)@
                &&& final(top_staker_list)@ == old(top_staker_list)@
                &&& match smallest_escrow {
                    Some(e) => *final(e) == *e,
                    None => true,
                }
            },
        },
{
    let index = escrow.full_balance_index;
    proof {
        lemma_place_shape(
            old(top_staker_list)@,
            StakerMetadata {
                stake_amount: new_stake_amount,
                full_balance_index: index as i64,
                owner: escrow.owner,
            },
        );
    }
    let (effective, count) = top_staker_list.totals_after_place(
        escrow.owner,
        index,
        new_stake_amount,
    )?;
    let change = top_staker_list.try_add_or_update(
        escrow.owner,
        index,
        new_stake_amount,
        smallest_escrow,
        vault.top_staker_info.cumulative_fee_a_per_liquidity,
        vault.top_staker_info.cumulative_fee_b_per_liquidity,
    )?;
    let in_top = match change {
        TopListChange::Unchanged => false,
        _ => true,
    };
    full_balance_list.set_balance(index, new_stake_amount, in_top);
    match change {
        TopListChange::Replaced(evicted) => {
            let evicted_index = evicted.full_balance_index as u64;
            let balance = full_balance_list.staker_balances[evicted_index as usize].balance;
            full_balance_list.set_balance(evicted_index, balance, false);
        },
        _ => {},
    }
    proof {
        lemma_totals_bounds(top_staker_list@);
    }
    let mut updated = vault;
    updated.top_staker_info.effective_stake_amount = effective;
    updated.top_staker_info.current_length = count;
    let mut staked = escrow;
    staked.stake_amount = new_stake_amount;
    staked.in_top_list = in_top;
    Ok((updated, staked, change))
}

impl FeeVault {
    /// Stakes `amount` for the staker of `stake_escrow`.
    ///
    /// `smallest_stake_escrow` is the escrow of the staker that leaves the top
    /// list first; it is needed where the stake takes that staker's slot.
    /// `pulled` is what the pool paid into the vault's accounts, if a pull was
    /// made. On an error nothing is changed.
    pub fn stake(
        &mut self,
        vault_key: &Pubkey,
        full_balance_list: &mut FullBalanceList,
        top_staker_list: &mut TopStakerList,
        stake_escrow: &mut StakeEscrow,
        smallest_stake_escrow: Option<&mut StakeEscrow>,
        amount: u64,
        now: i64,
        pulled: Option<PulledFee>,
    ) -> (r: Result<UserStake, StakeForFeeError>)
        requires
            system_wf(*old(self), *vault_key, old(full_balance_list), old(top_staker_list)),
            amount > 0,
        ensures
            system_wf(*final(self), *vault_key, final(full_balance_list), final(top_staker_list)),
            match spec_stake(
                snapshot(
                    *old(self),
                    old(full_balance_list),
                    old(top_staker_list),
                    *old(stake_escrow),
                    match smallest_stake_escrow {
                        Some(e) => Some(*e),
                        None => None,
                    },
                ),
                *vault_key,
                amount,
                now,
                pulled,
            ) {
                Ok((after, report)) => {
                    &&& r == Ok::<UserStake, StakeForFeeError>(report)
                    &&& *final(self) == after.vault
                    &&& final(full_balance_list)@ == after.balances
                    &&& final(top_staker_list)@ == after.stakers
                    &&& *final(stake_escrow) == after.escrow
                    &&& after.smallest_escrow == match smallest_stake_escrow {
                        Some(e) => Some(*final(e)),
                        None => None,
                    }
                },
                Err(e) => {
                    &&& r == Err::<UserStake, StakeForFeeError>(e)
                    &&& *final(self) == *old(self)
                    &&& final(full_balance_list)@ == old(full_balance_list)@
                    &&& final(top_staker_list)@ == old(top_staker_list)@
                    &&& *final(stake_escrow) == *old(stake_escrow)
                    &&& match smallest_stake_escrow {
                        Some(e) => *final(e) == *e,
                        None => true,
                    }
                },
            },
    {
        let (vault, escrow, fee_emission) = prepare(
            self,
            vault_key,
            full_balance_list,
            stake_escrow,
            now,
            pulled,
        )?;
        let new_stake_amount = match escrow.stake_amount.checked_add(amount) {
            Some(v) => v,
            None => {
                return Err(StakeForFeeError::MathOverflow);
            },
        };
        let total = match vault.metrics.total_staked_amount.checked_add(amount) {
            Some(v) => v,
            None => {
                return Err(StakeForFeeError::MathOverflow);
            },
        };
        let mut counted = vault;
        counted.metrics.total_staked_amount = total;
        let (updated, staked, top_list_change) = enter(
            vault_key,
            counted,
            full_balance_list,
            top_staker_list,
            escrow,
            smallest_stake_escrow,
            new_stake_amount,
        )?;
        *self = updated;
        *stake_escrow = staked;
        Ok(
            UserStake {
                fee_emission,
                top_list_change,
                stake_amount: amount,
                total_stake_amount: new_stake_amount,
            },
        )
    }

    /// Requests to take `unstake_amount` out of the stake of `stake_escrow`,
    /// and returns the ticket with which the amount can be withdrawn later.
    ///
    /// `escrow_key` is the address of the escrow, which the ticket names.
    /// `pulled` is what the pool paid into the vault's accounts, if a pull was
    /// made. On an error nothing is changed.
    pub fn request_unstake(
        &mut self,
        vault_key: &Pubkey,
        full_balance_list: &mut FullBalanceList,
        top_staker_list: &mut TopStakerList,
        stake_escrow: &mut StakeEscrow,
        escrow_key: &Pubkey,
        unstake_amount: u64,
        now: i64,
        pulled: Option<PulledFee>,
    ) -> (r: Result<UnstakeCreated, StakeForFeeError>)
        requires
            system_wf(*old(self), *vault_key, old(full_balance_list), old(top_staker_list)),
            unstake_amount > 0,
        ensures
            system_wf(*final(self), *vault_key, final(full_balance_list), final(top_staker_list)),
            match spec_request_unstake(
                snapshot(
                    *old(self),
                    old(full_balance_list),
                    old(top_staker_list),
                    *old(stake_escrow),
                    None,
                ),
                *vault_key,
                *escrow_key,
                unstake_amount,
                now,
                pulled,
            ) {
                Ok((after, report)) => {
                    &&& r == Ok::<UnstakeCreated, StakeForFeeError>(report)
                    &&& *final(self) == after.vault
                    &&& final(full_balance_list)@ == after.balances
                    &&& final(top_staker_list)@ == after.stakers
                    &&& *final(stake_escrow) == after.escrow
                },
                Err(e) => {
                    &&& r == Err::<UnstakeCreated, StakeForFeeError>(e)
                    &&& *final(self) == *old(self)
                    &&& final(full_balance_list)@ == old(full_balance_list)@
                    &&& final(top_staker_list)@ == old(top_staker_list)@
                    &&& *final(stake_escrow) == *old(stake_escrow)
                },
            },
    {
        if !check_escrow(vault_key, full_balance_list, stake_escrow) {
            return Err(StakeForFeeError::InvalidStakeEscrow);
        }
        if stake_escrow.stake_amount < stake_escrow.ongoing_total_partial_unstake_amount
            || stake_escrow.stake_amount - stake_escrow.ongoing_total_partial_unstake_amount
            < unstake_amount {
            return Err(StakeForFeeError::InsufficientStakeAmount);
        }
        let (vault, escrow, fee_emission) = prepare(
            self,
            vault_key,
            full_balance_list,
            stake_escrow,
            now,
            pulled,
        )?;
        let index = escrow.full_balance_index;
        let new_stake_amount = escrow.stake_amount - unstake_amount;
        let ongoing = escrow.ongoing_total_partial_unstake_amount + unstake_amount;
        let total_ongoing = match vault.metrics.ongoing_total_partial_unstake_amount.checked_add(
            unstake_amount,
        ) {
            Some(v) => v,
            None => {
                return Err(StakeForFeeError::MathOverflow);
            },
        };
        let release_at = match now.checked_add_unsigned(vault.configuration.unstake_lock_duration) {
            Some(v) => v,
            None => {
                return Err(StakeForFeeError::MathOverflow);
            },
        };
        let (effective, count) = top_staker_list.totals_after_reduce(index, new_stake_amount)?;
        let was_in_top = top_staker_list.find(index).is_some();
        proof {
            lemma_find_some(old(top_staker_list)@, index);
            lemma_reduce_shape(old(top_staker_list)@, index, new_stake_amount);
        }
        let left_top_list = top_staker_list.reduce_or_remove(index, new_stake_amount);
        let in_top = was_in_top && !left_top_list;
        full_balance_list.set_balance(index, new_stake_amount, in_top);
        proof {
            lemma_totals_bounds(top_staker_list@);
        }
        let mut updated = vault;
        updated.metrics.ongoing_total_partial_unstake_amount = total_ongoing;
        updated.top_staker_info.effective_stake_amount = effective;
        updated.top_staker_info.current_length = count;
        let mut reduced = escrow;
        reduced.stake_amount = new_stake_amount;
        reduced.ongoing_total_partial_unstake_amount = ongoing;
        reduced.in_top_list = in_top;
        *self = updated;
        *stake_escrow = reduced;
        Ok(
            UnstakeCreated {
                fee_emission,
                unstake: Unstake {
                    stake_escrow: *escrow_key,
                    unstake_amount,
                    created_at: now,
                    release_at,
                },
                left_top_list,
                new_stake_escrow_amount: new_stake_amount,
                new_stake_escrow_ongoing_total_unstake_amount: ongoing,
            },
        )
    }

    /// Cancels an unstake request: the ticket is used up, and its amount goes
    /// back to the stake of `stake_escrow`.
    ///
    /// `smallest_stake_escrow` is the escrow of the staker that leaves the top
    /// list first; it is needed where the staker takes that staker's slot.
    /// `pulled` is what the pool paid into the vault's accounts, if a pull was
    /// made. On an error nothing is changed.
    pub fn cancel_unstake(
        &mut self,
        vault_key: &Pubkey,
        full_balance_list: &mut FullBalanceList,
        top_staker_list: &mut TopStakerList,
        stake_escrow: &mut StakeEscrow,
        escrow_key: &Pubkey,
        smallest_stake_escrow: Option<&mut StakeEscrow>,
        unstake: Unstake,
        now: i64,
        pulled: Option<PulledFee>,
    ) -> (r: Result<CancelUnstakeSucceed, StakeForFeeError>)
        requires
            system_wf(*old(self), *vault_key, old(full_balance_list), old(top_staker_list)),
        ensures
            system_wf(*final(self), *vault_key, final(full_balance_list), final(top_staker_list)),
            match spec_cancel_unstake(
                snapshot(
                    *old(self),
                    old(full_balance_list),
                    old(top_staker_list),
                    *old(stake_escrow),
                    match smallest_stake_escrow {
                        Some(e) => Some(*e),
                        None => None,
                    },
                ),
                *vault_key,
                *escrow_key,
                unstake,
                now,
                pulled,
            ) {
                Ok((after, report)) => {
                    &&& r == Ok::<CancelUnstakeSucceed, StakeForFeeError>(report)
                    &&& *final(self) == after.vault
                    &&& final(full_balance_list)@ == after.balances
                    &&& final(top_staker_list)@ == after.stakers
                    &&& *final(stake_escrow) == after.escrow
                    &&& after.smallest_escrow == match smallest_stake_escrow {
                        Some(e) => Some(*final(e)),
                        None => None,
                    }
                },
                Err(e) => {
                    &&& r == Err::<CancelUnstakeSucceed, StakeForFeeError>(e)
                    &&& *final(self) == *old(self)
                    &&& final(full_balance_list)@ == old(full_balance_list)@
                    &&& final(top_staker_list)@ == old(top_staker_list)@
                    &&& *final(stake_escrow) == *old(stake_escrow)
                    &&& match smallest_stake_escrow {
                        Some(e) => *final(e) == *e,
                        None => true,
                    }
                },
            },
    {
        if !unstake.stake_escrow.equals(escrow_key) {
            return Err(StakeForFeeError::InvalidStakeEscrow);
        }
        let (vault, escrow, fee_emission) = prepare(
            self,
            vault_key,
            full_balance_list,
            stake_escrow,
            now,
            pulled,
        )?;
        let amount = unstake.unstake_amount;
        let new_stake_amount = match escrow.stake_amount.checked_add(amount) {
            Some(v) => v,
            None => {
                return Err(StakeForFeeError::MathOverflow);
            },
        };
        let ongoing = match escrow.ongoing_total_partial_unstake_amount.checked_sub(amount) {
            Some(v) => v,
            None => {
                return Err(StakeForFeeError::MathOverflow);
            },
        };
        let total_ongoing = match vault.metrics.ongoing_total_partial_unstake_amount.checked_sub(
            amount,
        ) {
            Some(v) => v,
            None => {
                return Err(StakeForFeeError::MathOverflow);
            },
        };
        let mut counted = vault;
        counted.metrics.ongoing_total_partial_unstake_amount = total_ongoing;
        let mut restored = escrow;
        restored.ongoing_total_partial_unstake_amount = ongoing;
        let (updated, staked, top_list_change) = enter(
            vault_key,
            counted,
            full_balance_list,
            top_staker_list,
            restored,
            smallest_stake_escrow,
            new_stake_amount,
        )?;
        *self = updated;
        *stake_escrow = staked;
        Ok(
            CancelUnstakeSucceed {
                fee_emission,
                top_list_change,
                amount,
                new_stake_escrow_amount: new_stake_amount,
                new_stake_escrow_ongoing_total_unstake_amount: ongoing,
            },
        )
    }
}

} // verus!
