use crate::constant::FULL_BALANCE_LIST_HARD_LIMIT;
use crate::errors::StakeForFeeError;
use crate::fee_drip::lemma_released_bounds;
use crate::fee_drip::spec_elapsed;
use crate::fee_drip::spec_released;
use crate::fee_drip::TopStakerInfo;
use crate::full_balance_list::registers;
use crate::full_balance_list::Registration;
use crate::full_balance_list::StakerBalance;
use crate::math::lemma_shl_div_bound;
use crate::math::scale;
use crate::math::spec_mul_shr;
use crate::math::spec_shl_div;
use crate::math::Rounding;
use crate::pubkey::Pubkey;
use crate::stake_escrow::lemma_accrued_bound;
use crate::stake_escrow::spec_accrued;
use crate::stake_escrow::StakeEscrow;
use crate::staking::spec_cancel_unstake;
use crate::staking::spec_request_unstake;
use crate::staking::spec_stake;
use crate::staking::Snapshot;
use crate::operations::escrow_matches;
use crate::top_list::holds_nowhere;
use crate::top_list::is_full;
use crate::top_list::spec_reduce;
use crate::top_list::is_other;
use crate::top_list::lemma_find_some;
use crate::top_list::lemma_first_empty_some;
use crate::top_list::lemma_smallest_some;
use crate::top_list::spec_find;
use crate::top_list::spec_first_empty;
use crate::top_list::spec_place;
use crate::top_list::spec_smallest;
use crate::top_list::StakerMetadata;
use crate::unstake::Unstake;
use crate::vault::FeeVault;
use crate::vault::PulledFee;
use vstd::arithmetic::div_mod::lemma_div_is_ordered;
use vstd::arithmetic::div_mod::lemma_fundamental_div_mod;
use vstd::prelude::*;

verus! {

/// A release never lowers an index, never raises what is held back, and never
/// touches the stake that shares it.
pub proof fn lemma_drip_monotonic(info: TopStakerInfo, window: u64, now: i64)
    requires
        info.spec_drip(window, now) is Ok,
    ensures
        ({
            let after = info.spec_drip(window, now)->Ok_0.0;
            let fee = info.spec_drip(window, now)->Ok_0.1;
            &&& after.cumulative_fee_a_per_liquidity >= info.cumulative_fee_a_per_liquidity
            &&& after.cumulative_fee_b_per_liquidity >= info.cumulative_fee_b_per_liquidity
            &&& after.locked_fee_a + fee.fee_a == info.locked_fee_a
            &&& after.locked_fee_b + fee.fee_b == info.locked_fee_b
            &&& after.effective_stake_amount == info.effective_stake_amount
            &&& after.last_updated_at == now
        }),
{
    if info.effective_stake_amount != 0 {
        let passed = spec_elapsed(info.last_updated_at, now, window);
        lemma_released_bounds(info.locked_fee_a, passed, window);
        lemma_released_bounds(info.locked_fee_b, passed, window);
        lemma_shl_div_bound(
            spec_released(info.locked_fee_a, passed, window),
            info.effective_stake_amount as int,
            Rounding::Down,
        );
        lemma_shl_div_bound(
            spec_released(info.locked_fee_b, passed, window),
            info.effective_stake_amount as int,
            Rounding::Down,
        );
    }
}

/// Once the whole window has passed, a release to a list that holds stake
/// empties what is held back, to the last unit.
pub proof fn lemma_drip_exact(info: TopStakerInfo, window: u64, now: i64)
    requires
        info.spec_drip(window, now) is Ok,
        info.effective_stake_amount > 0,
        now - info.last_updated_at >= window,
    ensures
        info.spec_drip(window, now)->Ok_0.0.locked_fee_a == 0,
        info.spec_drip(window, now)->Ok_0.0.locked_fee_b == 0,
        info.spec_drip(window, now)->Ok_0.1.fee_a == info.locked_fee_a,
        info.spec_drip(window, now)->Ok_0.1.fee_b == info.locked_fee_b,
{
    let passed = spec_elapsed(info.last_updated_at, now, window);
    assert(passed == window);
    lemma_released_bounds(info.locked_fee_a, passed, window);
    lemma_released_bounds(info.locked_fee_b, passed, window);
}

/// While no stake is in the list, a release moves neither index and takes
/// nothing out of what is held back; it cannot fail but for a window of zero.
pub proof fn lemma_drip_stall(info: TopStakerInfo, window: u64, now: i64)
    requires
        info.effective_stake_amount == 0,
        window > 0,
    ensures
        info.spec_drip(window, now) == Ok::<
            (TopStakerInfo, crate::fee_drip::ReleasedFee),
            StakeForFeeError,
        >(
            (
                TopStakerInfo { last_updated_at: now, ..info },
                crate::fee_drip::ReleasedFee { fee_a: 0, fee_b: 0 },
            ),
        ),
{
}

/// A release moves the index of a side exactly when the list holds stake and
/// something of that side is released.
pub proof fn lemma_drip_advances(info: TopStakerInfo, window: u64, now: i64)
    requires
        info.spec_drip(window, now) is Ok,
    ensures
        info.spec_drip(window, now)->Ok_0.0.cumulative_fee_a_per_liquidity
            > info.cumulative_fee_a_per_liquidity <==> (info.effective_stake_amount > 0
            && info.spec_drip(window, now)->Ok_0.1.fee_a > 0),
        info.spec_drip(window, now)->Ok_0.0.cumulative_fee_b_per_liquidity
            > info.cumulative_fee_b_per_liquidity <==> (info.effective_stake_amount > 0
            && info.spec_drip(window, now)->Ok_0.1.fee_b > 0),
{
    if info.effective_stake_amount != 0 {
        let passed = spec_elapsed(info.last_updated_at, now, window);
        lemma_released_bounds(info.locked_fee_a, passed, window);
        lemma_released_bounds(info.locked_fee_b, passed, window);
        lemma_growth_positive(
            spec_released(info.locked_fee_a, passed, window),
            info.effective_stake_amount as int,
        );
        lemma_growth_positive(
            spec_released(info.locked_fee_b, passed, window),
            info.effective_stake_amount as int,
        );
    }
}

/// The growth of an index is positive exactly when something is released.
pub proof fn lemma_growth_positive(fee: int, effective: int)
    requires
        0 <= fee,
        0 < effective < scale(),
    ensures
        spec_shl_div(fee, effective, Rounding::Down) > 0 <==> fee > 0,
        spec_shl_div(fee, effective, Rounding::Down) >= 0,
{
    lemma_shl_div_bound(fee, effective, Rounding::Down);
    if fee > 0 {
        assert(fee * scale() >= effective) by (nonlinear_arith)
            requires
                fee >= 1,
                0 < effective < scale(),
        ;
        lemma_div_is_ordered(effective, fee * scale(), effective);
        vstd::arithmetic::div_mod::lemma_div_basics(effective);
    } else {
        assert(fee * scale() == 0) by (nonlinear_arith)
            requires
                fee == 0,
        ;
    }
}

/// What the growth of an index promises to the whole stake is no more than what
/// was released: `effective * growth <= fee * 2^64`.
pub proof fn lemma_growth_conserves(fee: int, effective: int)
    requires
        0 <= fee,
        0 < effective,
    ensures
        effective * spec_shl_div(fee, effective, Rounding::Down) <= fee * scale(),
{
    let n = fee * scale();
    lemma_fundamental_div_mod(n, effective);
    assert(0 <= n % effective) by (nonlinear_arith)
        requires
            0 < effective,
    ;
}

/// What a stake is credited is no more than its share of the growth of the index:
/// `accrued * 2^64 <= stake * (cumulative - checkpoint)`.
pub proof fn lemma_accrued_conserves(stake: u64, cumulative: u128, checkpoint: u128)
    requires
        cumulative >= checkpoint,
    ensures
        spec_accrued(stake, cumulative, checkpoint) * scale() <= stake * (cumulative - checkpoint),
        0 <= spec_accrued(stake, cumulative, checkpoint),
{
    lemma_accrued_bound(stake, cumulative, checkpoint);
    let n: int = stake * (cumulative - checkpoint);
    let exact = spec_mul_shr(stake as int, cumulative - checkpoint, Rounding::Down);
    lemma_fundamental_div_mod(n, scale());
    assert(0 <= n % scale()) by (nonlinear_arith);
    assert(scale() * exact == exact * scale()) by (nonlinear_arith);
    let accrued = spec_accrued(stake, cumulative, checkpoint);
    assert(accrued * scale() <= exact * scale()) by (nonlinear_arith)
        requires
            accrued <= exact,
    ;
}

/// The sum of what the stakes of `stakes` are credited while an index grows by
/// `growth`.
pub open spec fn total_credit(stakes: Seq<u64>, growth: u128) -> int
    decreases stakes.len(),
{
    if stakes.len() == 0 {
        0
    } else {
        total_credit(stakes.drop_last(), growth) + spec_accrued(stakes.last(), growth, 0)
    }
}

/// The sum of the stakes of `stakes`.
pub open spec fn total_of(stakes: Seq<u64>) -> int
    decreases stakes.len(),
{
    if stakes.len() == 0 {
        0
    } else {
        total_of(stakes.drop_last()) + stakes.last()
    }
}

/// What all stakes together are credited is no more than their share of the
/// growth of the index.
proof fn lemma_total_credit_bound(stakes: Seq<u64>, growth: u128)
    ensures
        0 <= total_credit(stakes, growth),
        total_credit(stakes, growth) * scale() <= total_of(stakes) * growth,
    decreases stakes.len(),
{
    if stakes.len() > 0 {
        lemma_total_credit_bound(stakes.drop_last(), growth);
        lemma_accrued_conserves(stakes.last(), growth, 0);
        let c = total_credit(stakes.drop_last(), growth);
        let a = spec_accrued(stakes.last(), growth, 0);
        let t = total_of(stakes.drop_last());
        let l = stakes.last() as int;
        let g = growth as int;
        assert((c + a) * scale() == c * scale() + a * scale()) by (nonlinear_arith);
        assert((t + l) * g == t * g + l * g) by (nonlinear_arith);
    } else {
        assert(0 * scale() == 0) by (nonlinear_arith);
        assert(0 * (growth as int) == 0) by (nonlinear_arith);
    }
}

/// Never over-pay: when a released fee is spread over the effective stake, what
/// the stakers of the list are credited for it, all together, is no more than
/// the fee. Every step rounds down, so the remainder stays with the vault.
pub proof fn lemma_release_conserves(stakes: Seq<u64>, fee: u64, effective: u64)
    requires
        effective > 0,
        total_of(stakes) <= effective,
    ensures
        total_credit(stakes, spec_shl_div(fee as int, effective as int, Rounding::Down) as u128)
            <= fee,
{
    let growth_int = spec_shl_div(fee as int, effective as int, Rounding::Down);
    lemma_shl_div_bound(fee as int, effective as int, Rounding::Down);
    assert(fee * scale() <= u128::MAX) by (nonlinear_arith)
        requires
            fee <= u64::MAX,
    ;
    let growth = growth_int as u128;
    lemma_total_credit_bound(stakes, growth);
    lemma_growth_conserves(fee as int, effective as int);
    let c = total_credit(stakes, growth);
    let t = total_of(stakes);
    let e = effective as int;
    let g = growth as int;
    assert(t * g <= e * g) by (nonlinear_arith)
        requires
            t <= e,
            0 <= g,
    ;
    assert(c <= fee) by (nonlinear_arith)
        requires
            c * scale() <= fee * scale(),
    ;
}

/// Fairness: a staker that stays in the list is credited its stake times the
/// growth of the index since its checkpoint, divided by `2^64` and rounded down,
/// as long as that fits in 64 bits.
pub proof fn lemma_sync_credit(escrow: StakeEscrow, cumulative_a: u128, cumulative_b: u128)
    requires
        escrow.in_top_list,
        escrow.spec_sync(cumulative_a, cumulative_b) is Ok,
    ensures
        ({
            let synced = escrow.spec_sync(cumulative_a, cumulative_b)->Ok_0;
            let credit_a = escrow.stake_amount * (cumulative_a
                - escrow.fee_a_per_liquidity_checkpoint) / scale();
            let credit_b = escrow.stake_amount * (cumulative_b
                - escrow.fee_b_per_liquidity_checkpoint) / scale();
            &&& credit_a <= u64::MAX ==> synced.fee_a_pending == escrow.fee_a_pending + credit_a
            &&& credit_b <= u64::MAX ==> synced.fee_b_pending == escrow.fee_b_pending + credit_b
            &&& synced.fee_a_per_liquidity_checkpoint == cumulative_a
            &&& synced.fee_b_per_liquidity_checkpoint == cumulative_b
        }),
{
}

/// Fairness: two stakers of the list with the same stake and the same
/// checkpoints are credited the same over the same growth of the indices.
pub proof fn lemma_equal_stake_equal_credit(
    first: StakeEscrow,
    second: StakeEscrow,
    cumulative_a: u128,
    cumulative_b: u128,
)
    requires
        first.in_top_list && second.in_top_list,
        first.stake_amount == second.stake_amount,
        first.fee_a_per_liquidity_checkpoint == second.fee_a_per_liquidity_checkpoint,
        first.fee_b_per_liquidity_checkpoint == second.fee_b_per_liquidity_checkpoint,
        first.spec_sync(cumulative_a, cumulative_b) is Ok,
        second.spec_sync(cumulative_a, cumulative_b) is Ok,
    ensures
        first.spec_sync(cumulative_a, cumulative_b)->Ok_0.fee_a_pending - first.fee_a_pending
            == second.spec_sync(cumulative_a, cumulative_b)->Ok_0.fee_a_pending
            - second.fee_a_pending,
        first.spec_sync(cumulative_a, cumulative_b)->Ok_0.fee_b_pending - first.fee_b_pending
            == second.spec_sync(cumulative_a, cumulative_b)->Ok_0.fee_b_pending
            - second.fee_b_pending,
{
}

/// A staker outside the list is credited nothing, and its checkpoints move to
/// the indices: time spent outside the list is never paid later.
pub proof fn lemma_sync_outside(escrow: StakeEscrow, cumulative_a: u128, cumulative_b: u128)
    requires
        !escrow.in_top_list,
    ensures
        escrow.spec_sync(cumulative_a, cumulative_b) == Ok::<StakeEscrow, StakeForFeeError>(
            StakeEscrow {
                fee_a_per_liquidity_checkpoint: cumulative_a,
                fee_b_per_liquidity_checkpoint: cumulative_b,
                ..escrow
            },
        ),
{
}

/// An update of a vault's fees never lowers an index, and before fee
/// distribution starts it changes nothing.
pub proof fn lemma_update_fees_monotonic(vault: FeeVault, now: i64, pulled: Option<PulledFee>)
    requires
        vault.spec_update_fees(now, pulled) is Ok,
    ensures
        ({
            let after = vault.spec_update_fees(now, pulled)->Ok_0.0;
            &&& after.top_staker_info.cumulative_fee_a_per_liquidity
                >= vault.top_staker_info.cumulative_fee_a_per_liquidity
            &&& after.top_staker_info.cumulative_fee_b_per_liquidity
                >= vault.top_staker_info.cumulative_fee_b_per_liquidity
            &&& after.metrics.total_staked_amount == vault.metrics.total_staked_amount
            &&& after.metrics.ongoing_total_partial_unstake_amount
                == vault.metrics.ongoing_total_partial_unstake_amount
            &&& after.configuration == vault.configuration
            &&& now < vault.configuration.start_claim_fee_timestamp ==> after == vault
        }),
{
    if now >= vault.configuration.start_claim_fee_timestamp {
        let info = if vault.spec_takes_pull(now, pulled) {
            vault.top_staker_info.spec_pull(pulled->Some_0.fee_a, pulled->Some_0.fee_b, now)->Ok_0
        } else {
            vault.top_staker_info
        };
        lemma_drip_monotonic(info, vault.configuration.seconds_to_full_unlock, now);
    }
}

/// What a vault holds back and what it has released add up: an update of the
/// fees adds to the held back fees exactly what was pulled less what was
/// released, and to the lifetime totals exactly what was pulled.
pub proof fn lemma_update_fees_accounts(vault: FeeVault, now: i64, pulled: Option<PulledFee>)
    requires
        vault.spec_update_fees(now, pulled) is Ok,
    ensures
        ({
            let after = vault.spec_update_fees(now, pulled)->Ok_0.0;
            let emission = vault.spec_update_fees(now, pulled)->Ok_0.1;
            &&& after.top_staker_info.locked_fee_a + emission.token_a_released
                == vault.top_staker_info.locked_fee_a + emission.token_a_claimed
            &&& after.top_staker_info.locked_fee_b + emission.token_b_released
                == vault.top_staker_info.locked_fee_b + emission.token_b_claimed
            &&& after.metrics.total_fee_a_amount == vault.metrics.total_fee_a_amount
                + emission.token_a_claimed
            &&& after.metrics.total_fee_b_amount == vault.metrics.total_fee_b_amount
                + emission.token_b_claimed
        }),
{
    if now >= vault.configuration.start_claim_fee_timestamp {
        let info = if vault.spec_takes_pull(now, pulled) {
            vault.top_staker_info.spec_pull(pulled->Some_0.fee_a, pulled->Some_0.fee_b, now)->Ok_0
        } else {
            vault.top_staker_info
        };
        lemma_drip_monotonic(info, vault.configuration.seconds_to_full_unlock, now);
    }
}

/// Registering an owner twice in a row gives the same index twice, and the
/// second registration leaves the list as the first left it.
pub proof fn lemma_register_idempotent(
    before: Seq<StakerBalance>,
    owner: Pubkey,
    first: Registration,
    between: Seq<StakerBalance>,
    second: Registration,
    after: Seq<StakerBalance>,
)
    requires
        registers(before, owner, first, between),
        registers(between, owner, second, after),
    ensures
        second.index == first.index,
        after == between,
{
    let i = first.index as int;
    match first.kind {
        crate::full_balance_list::RegistrationKind::Existing => {
            assert(between[i].spec_is_occupied() && between[i].owner@ == owner@);
            match second.kind {
                crate::full_balance_list::RegistrationKind::Existing => {
                    let k = second.index as int;
                    if k < i {
                        assert(between[k].spec_is_occupied());
                    }
                    if i < k {
                        assert(between[i].spec_is_occupied());
                    }
                },
                _ => {},
            }
        },
        _ => {
            assert(between[i] == StakerBalance::spec_fresh(owner));
            assert forall|j: int| 0 <= j < between.len() implies !(
            #[trigger] between[j].spec_is_occupied() && between[j].owner@ == owner@) by {
                if j != i && j < before.len() {
                    assert(between[j] == before[j]);
                    assert(!(before[j].spec_is_occupied() && before[j].owner@ == owner@));
                }
            }
            assert forall|j: int| 0 <= j < i implies #[trigger] between[j].spec_is_occupied() by {
                assert(between[j] == before[j]);
                assert(before[j].spec_is_occupied());
            }
            match second.kind {
                crate::full_balance_list::RegistrationKind::Existing => {
                    let k = second.index as int;
                    assert(between[k].spec_is_occupied() && between[k].owner@ == owner@);
                },
                crate::full_balance_list::RegistrationKind::Reclaimed => {
                    let k = second.index as int;
                    if k < i {
                        assert(between[k].spec_is_occupied());
                    }
                    if i < k {
                        assert(between[i].spec_is_occupied());
                    }
                    assert(after =~= between);
                },
                crate::full_balance_list::RegistrationKind::Appended => {
                    assert(between[i].spec_is_occupied());
                },
            }
        },
    }
}

/// No withdrawal succeeds before the ticket's release time, and from that time
/// on none fails for the time.
pub proof fn lemma_withdraw_gated(
    vault: FeeVault,
    vault_key: Pubkey,
    escrow: StakeEscrow,
    escrow_key: Pubkey,
    unstake: Unstake,
    now: i64,
)
    ensures
        vault.spec_withdraw(vault_key, escrow, escrow_key, unstake, now) is Ok ==> now
            >= unstake.release_at,
        now >= unstake.release_at ==> vault.spec_withdraw(
            vault_key,
            escrow,
            escrow_key,
            unstake,
            now,
        ) != Err::<
            (FeeVault, StakeEscrow, crate::operations::WithdrawSucceed),
            StakeForFeeError,
        >(StakeForFeeError::CannotWithdrawUnstakeAmount),
        now < unstake.release_at && escrow.vault@ == vault_key@ && unstake.stake_escrow@
            == escrow_key@ ==> vault.spec_withdraw(vault_key, escrow, escrow_key, unstake, now)
            == Err::<(FeeVault, StakeEscrow, crate::operations::WithdrawSucceed), StakeForFeeError>(
            StakeForFeeError::CannotWithdrawUnstakeAmount,
        ),
{
}

/// What a stake does to the amounts: the staker's stake and the vault's total
/// grow by the amount staked, nothing else moves between stake and unstake, the
/// staker keeps its index, the escrow of a staker that leaves the list keeps its
/// amounts and is out of the list, and no index is lowered.
pub proof fn lemma_stake_amounts(
    state: Snapshot,
    vault_key: Pubkey,
    amount: u64,
    now: i64,
    pulled: Option<PulledFee>,
)
    requires
        spec_stake(state, vault_key, amount, now, pulled) is Ok,
    ensures
        ({
            let after = spec_stake(state, vault_key, amount, now, pulled)->Ok_0.0;
            &&& after.escrow.stake_amount == state.escrow.stake_amount + amount
            &&& after.escrow.ongoing_total_partial_unstake_amount
                == state.escrow.ongoing_total_partial_unstake_amount
            &&& after.escrow.full_balance_index == state.escrow.full_balance_index
            &&& after.escrow.owner == state.escrow.owner
            &&& after.vault.metrics.total_staked_amount == state.vault.metrics.total_staked_amount
                + amount
            &&& after.vault.metrics.ongoing_total_partial_unstake_amount
                == state.vault.metrics.ongoing_total_partial_unstake_amount
            &&& after.vault.top_staker_info.cumulative_fee_a_per_liquidity
                >= state.vault.top_staker_info.cumulative_fee_a_per_liquidity
            &&& after.vault.top_staker_info.cumulative_fee_b_per_liquidity
                >= state.vault.top_staker_info.cumulative_fee_b_per_liquidity
            &&& after.smallest_escrow is Some <==> state.smallest_escrow is Some
            &&& after.smallest_escrow is Some ==> holdings(after.smallest_escrow->Some_0)
                == holdings(state.smallest_escrow->Some_0)
        }),
{
    lemma_update_fees_monotonic(state.vault, now, pulled);
}

/// What an unstake request does to the amounts: the amount moves from the
/// staker's stake to what it is unstaking, the vault's total stays, the staker
/// keeps its index, the ticket is released after the vault's lock duration, and
/// no index is lowered.
pub proof fn lemma_request_unstake_amounts(
    state: Snapshot,
    vault_key: Pubkey,
    escrow_key: Pubkey,
    unstake_amount: u64,
    now: i64,
    pulled: Option<PulledFee>,
)
    requires
        spec_request_unstake(state, vault_key, escrow_key, unstake_amount, now, pulled) is Ok,
    ensures
        ({
            let r = spec_request_unstake(
                state,
                vault_key,
                escrow_key,
                unstake_amount,
                now,
                pulled,
            )->Ok_0;
            let after = r.0;
            let ticket = r.1.unstake;
            &&& after.escrow.stake_amount == state.escrow.stake_amount - unstake_amount
            &&& after.escrow.ongoing_total_partial_unstake_amount
                == state.escrow.ongoing_total_partial_unstake_amount + unstake_amount
            &&& after.escrow.full_balance_index == state.escrow.full_balance_index
            &&& after.escrow.owner == state.escrow.owner
            &&& after.vault.metrics.total_staked_amount == state.vault.metrics.total_staked_amount
            &&& after.vault.metrics.ongoing_total_partial_unstake_amount
                == state.vault.metrics.ongoing_total_partial_unstake_amount + unstake_amount
            &&& after.vault.top_staker_info.cumulative_fee_a_per_liquidity
                >= state.vault.top_staker_info.cumulative_fee_a_per_liquidity
            &&& after.vault.top_staker_info.cumulative_fee_b_per_liquidity
                >= state.vault.top_staker_info.cumulative_fee_b_per_liquidity
            &&& ticket.unstake_amount == unstake_amount
            &&& ticket.stake_escrow == escrow_key
            &&& ticket.created_at == now
            &&& ticket.release_at == now + state.vault.configuration.unstake_lock_duration
            &&& after.smallest_escrow == state.smallest_escrow
        }),
{
    lemma_update_fees_monotonic(state.vault, now, pulled);
}

/// What the cancelling of an unstake request does to the amounts: the ticket's
/// amount moves back from what the staker is unstaking to its stake, the vault's
/// total stays, the staker keeps its index, and no index is lowered.
pub proof fn lemma_cancel_unstake_amounts(
    state: Snapshot,
    vault_key: Pubkey,
    escrow_key: Pubkey,
    unstake: Unstake,
    now: i64,
    pulled: Option<PulledFee>,
)
    requires
        spec_cancel_unstake(state, vault_key, escrow_key, unstake, now, pulled) is Ok,
    ensures
        ({
            let after = spec_cancel_unstake(
                state,
                vault_key,
                escrow_key,
                unstake,
                now,
                pulled,
            )->Ok_0.0;
            &&& after.escrow.stake_amount == state.escrow.stake_amount + unstake.unstake_amount
            &&& after.escrow.ongoing_total_partial_unstake_amount
                == state.escrow.ongoing_total_partial_unstake_amount - unstake.unstake_amount
            &&& after.escrow.full_balance_index == state.escrow.full_balance_index
            &&& after.escrow.owner == state.escrow.owner
            &&& after.vault.metrics.total_staked_amount == state.vault.metrics.total_staked_amount
            &&& after.vault.metrics.ongoing_total_partial_unstake_amount
                == state.vault.metrics.ongoing_total_partial_unstake_amount
                - unstake.unstake_amount
            &&& after.vault.top_staker_info.cumulative_fee_a_per_liquidity
                >= state.vault.top_staker_info.cumulative_fee_a_per_liquidity
            &&& after.vault.top_staker_info.cumulative_fee_b_per_liquidity
                >= state.vault.top_staker_info.cumulative_fee_b_per_liquidity
            &&& after.smallest_escrow is Some <==> state.smallest_escrow is Some
            &&& after.smallest_escrow is Some ==> holdings(after.smallest_escrow->Some_0)
                == holdings(state.smallest_escrow->Some_0)
        }),
{
    lemma_update_fees_monotonic(state.vault, now, pulled);
}

/// Cancelling is allowed at any time: what it does depends neither on the
/// ticket's release time nor on when the ticket was made.
pub proof fn lemma_cancel_unstake_any_time(
    state: Snapshot,
    vault_key: Pubkey,
    escrow_key: Pubkey,
    unstake: Unstake,
    created_at: i64,
    release_at: i64,
    now: i64,
    pulled: Option<PulledFee>,
)
    ensures
        spec_cancel_unstake(
            state,
            vault_key,
            escrow_key,
            Unstake { created_at, release_at, ..unstake },
            now,
            pulled,
        ) == spec_cancel_unstake(state, vault_key, escrow_key, unstake, now, pulled),
{
}

/// What a withdrawal does to the amounts: the ticket's amount leaves what the
/// staker is unstaking and both totals of the vault; the stake, the fees and the
/// indices stay.
pub proof fn lemma_withdraw_amounts(
    vault: FeeVault,
    vault_key: Pubkey,
    escrow: StakeEscrow,
    escrow_key: Pubkey,
    unstake: Unstake,
    now: i64,
)
    requires
        vault.spec_withdraw(vault_key, escrow, escrow_key, unstake, now) is Ok,
    ensures
        ({
            let r = vault.spec_withdraw(vault_key, escrow, escrow_key, unstake, now)->Ok_0;
            &&& r.0.metrics.total_staked_amount == vault.metrics.total_staked_amount
                - unstake.unstake_amount
            &&& r.0.metrics.ongoing_total_partial_unstake_amount
                == vault.metrics.ongoing_total_partial_unstake_amount - unstake.unstake_amount
            &&& r.0.top_staker_info == vault.top_staker_info
            &&& r.1.ongoing_total_partial_unstake_amount
                == escrow.ongoing_total_partial_unstake_amount - unstake.unstake_amount
            &&& r.1.stake_amount == escrow.stake_amount
            &&& r.1.fee_a_pending == escrow.fee_a_pending
            &&& r.1.fee_b_pending == escrow.fee_b_pending
            &&& r.2.amount == unstake.unstake_amount
        }),
{
}

/// What an escrow holds of the stake token: what it has staked and what it is
/// unstaking.
pub open spec fn holdings(escrow: StakeEscrow) -> int {
    escrow.stake_amount + escrow.ongoing_total_partial_unstake_amount
}

/// What the escrows of `escrows` hold of the stake token, all together.
pub open spec fn total_holdings(escrows: Seq<StakeEscrow>) -> int
    decreases escrows.len(),
{
    if escrows.len() == 0 {
        0
    } else {
        total_holdings(escrows.drop_last()) + holdings(escrows.last())
    }
}

/// Replacing one escrow changes the total of the holdings by the difference of
/// its holdings.
pub proof fn lemma_total_holdings_update(escrows: Seq<StakeEscrow>, i: int, escrow: StakeEscrow)
    requires
        0 <= i < escrows.len(),
    ensures
        total_holdings(escrows.update(i, escrow)) == total_holdings(escrows) - holdings(escrows[i])
            + holdings(escrow),
    decreases escrows.len(),
{
    let updated = escrows.update(i, escrow);
    if i == escrows.len() - 1 {
        assert(updated.drop_last() =~= escrows.drop_last());
    } else {
        assert(updated.drop_last() =~= escrows.drop_last().update(i, escrow));
        lemma_total_holdings_update(escrows.drop_last(), i, escrow);
    }
}

/// Stake consistency is kept by a stake: if the vault's total was the sum of
/// what all its escrows hold, it is so again after the stake, with the staker's
/// escrow at `i` and the escrow of the staker that may leave the list at `j`
/// written back.
pub proof fn lemma_stake_keeps_total(
    escrows: Seq<StakeEscrow>,
    i: int,
    j: int,
    state: Snapshot,
    vault_key: Pubkey,
    amount: u64,
    now: i64,
    pulled: Option<PulledFee>,
)
    requires
        0 <= i < escrows.len(),
        0 <= j < escrows.len(),
        i != j,
        escrows[i] == state.escrow,
        state.smallest_escrow == Some(escrows[j]),
        state.vault.metrics.total_staked_amount == total_holdings(escrows),
        spec_stake(state, vault_key, amount, now, pulled) is Ok,
    ensures
        ({
            let after = spec_stake(state, vault_key, amount, now, pulled)->Ok_0.0;
            after.vault.metrics.total_staked_amount == total_holdings(
                escrows.update(i, after.escrow).update(j, after.smallest_escrow->Some_0),
            )
        }),
{
    let after = spec_stake(state, vault_key, amount, now, pulled)->Ok_0.0;
    lemma_stake_amounts(state, vault_key, amount, now, pulled);
    lemma_total_holdings_update(escrows, i, after.escrow);
    lemma_total_holdings_update(escrows.update(i, after.escrow), j, after.smallest_escrow->Some_0);
}

/// Stake consistency is kept by an unstake request, by its cancelling and by a
/// withdrawal: each changes the vault's total by what it changes in the holdings
/// of the staker's escrow.
pub proof fn lemma_unstake_keeps_total(
    state: Snapshot,
    vault_key: Pubkey,
    escrow_key: Pubkey,
    unstake_amount: u64,
    unstake: Unstake,
    now: i64,
    pulled: Option<PulledFee>,
)
    ensures
        spec_request_unstake(state, vault_key, escrow_key, unstake_amount, now, pulled) is Ok ==> ({
            let after = spec_request_unstake(
                state,
                vault_key,
                escrow_key,
                unstake_amount,
                now,
                pulled,
            )->Ok_0.0;
            after.vault.metrics.total_staked_amount - holdings(after.escrow)
                == state.vault.metrics.total_staked_amount - holdings(state.escrow)
        }),
        spec_cancel_unstake(state, vault_key, escrow_key, unstake, now, pulled) is Ok ==> ({
            let after = spec_cancel_unstake(
                state,
                vault_key,
                escrow_key,
                unstake,
                now,
                pulled,
            )->Ok_0.0;
            after.vault.metrics.total_staked_amount - holdings(after.escrow)
                == state.vault.metrics.total_staked_amount - holdings(state.escrow)
        }),
        state.vault.spec_withdraw(vault_key, state.escrow, escrow_key, unstake, now) is Ok ==> ({
            let r = state.vault.spec_withdraw(
                vault_key,
                state.escrow,
                escrow_key,
                unstake,
                now,
            )->Ok_0;
            r.0.metrics.total_staked_amount - holdings(r.1)
                == state.vault.metrics.total_staked_amount - holdings(state.escrow)
        }),
{
    if spec_request_unstake(state, vault_key, escrow_key, unstake_amount, now, pulled) is Ok {
        lemma_request_unstake_amounts(state, vault_key, escrow_key, unstake_amount, now, pulled);
    }
    if spec_cancel_unstake(state, vault_key, escrow_key, unstake, now, pulled) is Ok {
        lemma_cancel_unstake_amounts(state, vault_key, escrow_key, unstake, now, pulled);
    }
}

/// A stake, an unstake request for the same amount and the withdrawal of its
/// ticket bring the vault's total back to what it was before the stake, and the
/// staker's stake too; the amount has left the vault.
pub proof fn lemma_stake_unstake_withdraw(
    state: Snapshot,
    vault_key: Pubkey,
    escrow_key: Pubkey,
    amount: u64,
    stake_at: i64,
    stake_pulled: Option<PulledFee>,
    unstake_at: i64,
    unstake_pulled: Option<PulledFee>,
    withdraw_at: i64,
)
    requires
        spec_stake(state, vault_key, amount, stake_at, stake_pulled) is Ok,
        spec_request_unstake(
            spec_stake(state, vault_key, amount, stake_at, stake_pulled)->Ok_0.0,
            vault_key,
            escrow_key,
            amount,
            unstake_at,
            unstake_pulled,
        ) is Ok,
    ensures
        ({
            let staked = spec_stake(state, vault_key, amount, stake_at, stake_pulled)->Ok_0.0;
            let requested = spec_request_unstake(
                staked,
                vault_key,
                escrow_key,
                amount,
                unstake_at,
                unstake_pulled,
            )->Ok_0;
            let withdrawn = requested.0.vault.spec_withdraw(
                vault_key,
                requested.0.escrow,
                escrow_key,
                requested.1.unstake,
                withdraw_at,
            );
            &&& withdraw_at < requested.1.unstake.release_at ==> withdrawn == Err::<
                (FeeVault, StakeEscrow, crate::operations::WithdrawSucceed),
                StakeForFeeError,
            >(StakeForFeeError::CannotWithdrawUnstakeAmount)
            &&& withdraw_at >= requested.1.unstake.release_at ==> {
                &&& withdrawn is Ok
                &&& withdrawn->Ok_0.2.amount == amount
                &&& withdrawn->Ok_0.0.metrics.total_staked_amount
                    == state.vault.metrics.total_staked_amount
                &&& withdrawn->Ok_0.0.metrics.ongoing_total_partial_unstake_amount
                    == state.vault.metrics.ongoing_total_partial_unstake_amount
                &&& withdrawn->Ok_0.1.stake_amount == state.escrow.stake_amount
                &&& withdrawn->Ok_0.1.ongoing_total_partial_unstake_amount
                    == state.escrow.ongoing_total_partial_unstake_amount
            }
        }),
{
    let staked = spec_stake(state, vault_key, amount, stake_at, stake_pulled)->Ok_0.0;
    lemma_stake_amounts(state, vault_key, amount, stake_at, stake_pulled);
    lemma_request_unstake_amounts(staked, vault_key, escrow_key, amount, unstake_at, unstake_pulled);
}

/// The eviction threshold: a staker that is put where it belongs is in the list
/// afterwards, unless the list is full of stakers that have staked at least as
/// much. A staker that leaves for it was the one that leaves first, and had
/// staked strictly less.
pub proof fn lemma_place_threshold(slots: Seq<StakerMetadata>, entry: StakerMetadata)
    requires
        entry.full_balance_index >= 0,
    ensures
        ({
            let (placed, change) = spec_place(slots, entry);
            &&& change is Unchanged ==> placed == slots && is_full(slots) && forall|j: int|
                0 <= j < slots.len() ==> entry.stake_amount <= (#[trigger] slots[j]).stake_amount
            &&& !(change is Unchanged) ==> exists|i: int|
                0 <= i < placed.len() && (#[trigger] placed[i]).full_balance_index
                    == entry.full_balance_index && placed[i].stake_amount == entry.stake_amount
            &&& change is Replaced ==> {
                &&& change->Replaced_0.stake_amount < entry.stake_amount
                &&& forall|j: int|
                    0 <= j < slots.len() ==> change->Replaced_0.stake_amount <= (
                    #[trigger] slots[j]).stake_amount
                &&& forall|j: int|
                    0 <= j < placed.len() ==> change->Replaced_0.stake_amount <= (
                    #[trigger] placed[j]).stake_amount
            }
        }),
{
    lemma_find_some(slots, entry.full_balance_index as u64);
    lemma_first_empty_some(slots);
    lemma_smallest_some(slots, -1i64);
    let (placed, change) = spec_place(slots, entry);
    if spec_find(slots, entry.full_balance_index as u64) is None && spec_first_empty(slots) is None {
        match spec_smallest(slots, -1i64) {
            Some(m) => {
                assert forall|j: int| 0 <= j < slots.len() implies slots[m].stake_amount <= (
                #[trigger] slots[j]).stake_amount by {
                    assert(slots[j].spec_is_occupied());
                    assert(is_other(slots[j], -1i64));
                    assert(slots[m].spec_evicted_before(slots[j]));
                }
                if entry.stake_amount > slots[m].stake_amount {
                    assert(placed[m] == entry);
                    assert forall|j: int| 0 <= j < placed.len() implies slots[m].stake_amount <= (
                    #[trigger] placed[j]).stake_amount by {
                        if j != m {
                            assert(placed[j] == slots[j]);
                        }
                    }
                }
            },
            None => {
                assert forall|j: int| 0 <= j < slots.len() implies entry.stake_amount <= (
                #[trigger] slots[j]).stake_amount by {
                    assert(slots[j].spec_is_occupied());
                    assert(is_other(slots[j], -1i64));
                }
            },
        }
    } else if spec_find(slots, entry.full_balance_index as u64) is Some {
        let i = spec_find(slots, entry.full_balance_index as u64)->Some_0;
        assert(placed[i].full_balance_index == entry.full_balance_index);
    } else {
        let i = spec_first_empty(slots)->Some_0;
        assert(placed[i] == entry);
    }
}

/// A stake, an unstake request for the same amount and the cancelling of its
/// ticket bring the staker's escrow back to what the stake made of it: the
/// amount staked, the amount being unstaked, and its place in or out of the top
/// list.
pub proof fn lemma_stake_unstake_cancel(
    state: Snapshot,
    vault_key: Pubkey,
    escrow_key: Pubkey,
    amount: u64,
    stake_at: i64,
    stake_pulled: Option<PulledFee>,
    unstake_at: i64,
    unstake_pulled: Option<PulledFee>,
    cancel_at: i64,
    cancel_pulled: Option<PulledFee>,
)
    requires
        state.balances.len() <= FULL_BALANCE_LIST_HARD_LIMIT,
        spec_stake(state, vault_key, amount, stake_at, stake_pulled) is Ok,
        spec_request_unstake(
            spec_stake(state, vault_key, amount, stake_at, stake_pulled)->Ok_0.0,
            vault_key,
            escrow_key,
            amount,
            unstake_at,
            unstake_pulled,
        ) is Ok,
        ({
            let staked = spec_stake(state, vault_key, amount, stake_at, stake_pulled)->Ok_0.0;
            let requested = spec_request_unstake(
                staked,
                vault_key,
                escrow_key,
                amount,
                unstake_at,
                unstake_pulled,
            )->Ok_0;
            spec_cancel_unstake(
                requested.0,
                vault_key,
                escrow_key,
                requested.1.unstake,
                cancel_at,
                cancel_pulled,
            ) is Ok
        }),
    ensures
        ({
            let staked = spec_stake(state, vault_key, amount, stake_at, stake_pulled)->Ok_0.0;
            let requested = spec_request_unstake(
                staked,
                vault_key,
                escrow_key,
                amount,
                unstake_at,
                unstake_pulled,
            )->Ok_0;
            let cancelled = spec_cancel_unstake(
                requested.0,
                vault_key,
                escrow_key,
                requested.1.unstake,
                cancel_at,
                cancel_pulled,
            )->Ok_0.0;
            &&& cancelled.escrow.stake_amount == staked.escrow.stake_amount
            &&& cancelled.escrow.ongoing_total_partial_unstake_amount
                == staked.escrow.ongoing_total_partial_unstake_amount
            &&& cancelled.escrow.in_top_list == staked.escrow.in_top_list
            &&& cancelled.escrow.full_balance_index == staked.escrow.full_balance_index
            &&& cancelled.vault.metrics.total_staked_amount
                == staked.vault.metrics.total_staked_amount
            &&& cancelled.vault.metrics.ongoing_total_partial_unstake_amount
                == staked.vault.metrics.ongoing_total_partial_unstake_amount
        }),
{
    let staked = spec_stake(state, vault_key, amount, stake_at, stake_pulled)->Ok_0.0;
    let requested = spec_request_unstake(
        staked,
        vault_key,
        escrow_key,
        amount,
        unstake_at,
        unstake_pulled,
    )->Ok_0;
    let ticket = requested.1.unstake;
    lemma_stake_amounts(state, vault_key, amount, stake_at, stake_pulled);
    lemma_request_unstake_amounts(staked, vault_key, escrow_key, amount, unstake_at, unstake_pulled);
    lemma_cancel_unstake_amounts(
        requested.0,
        vault_key,
        escrow_key,
        ticket,
        cancel_at,
        cancel_pulled,
    );
    let index = state.escrow.full_balance_index;
    let owner = state.escrow.owner;
    let full = staked.escrow.stake_amount;
    let entry = StakerMetadata {
        stake_amount: full,
        full_balance_index: index as i64,
        owner,
    };
    assert(escrow_matches(vault_key, state.balances, state.escrow));
    let first = spec_place(state.stakers, entry);
    assert(staked.stakers == first.0);
    assert(staked.escrow.in_top_list == !(first.1 is Unchanged));
    let reduced = spec_reduce(staked.stakers, index, (full - amount) as u64);
    assert(requested.0.stakers == reduced.0);
    let last = spec_place(reduced.0, entry);
    lemma_place_threshold(state.stakers, entry);
    lemma_find_some(state.stakers, index);
    lemma_first_empty_some(state.stakers);
    lemma_find_some(staked.stakers, index);
    lemma_find_some(reduced.0, index);
    lemma_first_empty_some(reduced.0);
    if first.1 is Unchanged {
        assert(reduced.0 == state.stakers);
    } else {
        assert(!holds_nowhere(staked.stakers, index));
        let k = spec_find(staked.stakers, index)->Some_0;
        if reduced.1 {
            assert(!reduced.0[k].spec_is_occupied());
            assert(!is_full(reduced.0));
        } else {
            assert(reduced.0[k].full_balance_index == index);
            assert(!holds_nowhere(reduced.0, index));
        }
        assert(!(last.1 is Unchanged));
    }
}

} // verus!
