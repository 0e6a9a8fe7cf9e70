use crate::fee_drip::lemma_released_bounds;
use crate::fee_drip::spec_elapsed;
use crate::fee_drip::spec_released;
use crate::fee_drip::TopStakerInfo;
use crate::laws::lemma_accrued_conserves;
use crate::laws::lemma_growth_conserves;
use crate::math::lemma_shl_div_bound;
use crate::math::scale;
use crate::math::spec_shl_div;
use crate::math::Rounding;
use crate::stake_escrow::spec_accrued;
use crate::stake_escrow::StakeEscrow;
use vstd::prelude::*;

verus! {

/// One of the two sides of the pool whose fees a vault distributes.
#[derive(Clone, Copy, Debug, PartialEq, Eq, Structural)]
pub enum Side {
    A,
    B,
}

/// The fee of a side that an escrow has been credited and not yet been paid.
pub open spec fn pending(escrow: StakeEscrow, side: Side) -> int {
    match side {
        Side::A => escrow.fee_a_pending as int,
        Side::B => escrow.fee_b_pending as int,
    }
}

/// The index of a side up to which an escrow has been credited.
pub open spec fn checkpoint(escrow: StakeEscrow, side: Side) -> int {
    match side {
        Side::A => escrow.fee_a_per_liquidity_checkpoint as int,
        Side::B => escrow.fee_b_per_liquidity_checkpoint as int,
    }
}

/// The fee of a side that a vault holds back.
pub open spec fn locked(info: TopStakerInfo, side: Side) -> int {
    match side {
        Side::A => info.locked_fee_a as int,
        Side::B => info.locked_fee_b as int,
    }
}

/// The index of a side of a vault.
pub open spec fn index(info: TopStakerInfo, side: Side) -> int {
    match side {
        Side::A => info.cumulative_fee_a_per_liquidity as int,
        Side::B => info.cumulative_fee_b_per_liquidity as int,
    }
}

/// What the index of a side has promised a staker of the list since its
/// checkpoint and not yet credited, in units of `2^-64`: its stake times the
/// growth of the index. A staker outside the list is promised nothing.
pub open spec fn owed(escrow: StakeEscrow, cumulative: int, side: Side) -> int {
    if escrow.in_top_list {
        escrow.stake_amount * (cumulative - checkpoint(escrow, side))
    } else {
        0
    }
}

/// What an escrow adds to the stake that shares the fees: its stake while it
/// is in the list.
pub open spec fn sharing(escrow: StakeEscrow) -> int {
    if escrow.in_top_list {
        escrow.stake_amount as int
    } else {
        0
    }
}

/// The sum of a sequence of integers.
pub open spec fn sum(values: Seq<int>) -> int
    decreases values.len(),
{
    if values.len() == 0 {
        0
    } else {
        sum(values.drop_last()) + values.last()
    }
}

/// The fee of a side that all escrows together have been credited and not yet
/// been paid.
pub open spec fn total_pending(escrows: Seq<StakeEscrow>, side: Side) -> int {
    sum(escrows.map_values(|e: StakeEscrow| pending(e, side)))
}

/// What the index of a side has promised all escrows together and not yet
/// credited, in units of `2^-64`.
pub open spec fn total_owed(escrows: Seq<StakeEscrow>, cumulative: int, side: Side) -> int {
    sum(escrows.map_values(|e: StakeEscrow| owed(e, cumulative, side)))
}

/// The stake of all escrows of the list together.
pub open spec fn total_sharing(escrows: Seq<StakeEscrow>) -> int {
    sum(escrows.map_values(|e: StakeEscrow| sharing(e)))
}

/// Conservation of a side's fees: what the escrows have pending, what the vault
/// holds back and what was paid out, together with what the index has promised
/// and not yet credited, is no more than what was pulled from the pool.
///
/// `escrows` are all escrows of the vault, `paid` is all that was ever paid
/// out of the side, `pulled` all that was ever pulled. The vault's effective
/// stake is the stake of the escrows of the list, and none of them has a
/// checkpoint ahead of the index.
pub open spec fn conserved(
    escrows: Seq<StakeEscrow>,
    info: TopStakerInfo,
    paid: int,
    pulled: int,
    side: Side,
) -> bool {
    &&& scale() * (total_pending(escrows, side) + locked(info, side) + paid) + total_owed(
        escrows,
        index(info, side),
        side,
    ) <= scale() * pulled
    &&& total_sharing(escrows) == info.effective_stake_amount
    &&& forall|i: int|
        0 <= i < escrows.len() && (#[trigger] escrows[i]).in_top_list ==> checkpoint(
            escrows[i],
            side,
        ) <= index(info, side)
}

/// Writing one value changes a sum by the difference of the values.
proof fn lemma_sum_update(values: Seq<int>, i: int, value: int)
    requires
        0 <= i < values.len(),
    ensures
        sum(values.update(i, value)) == sum(values) - values[i] + value,
    decreases values.len(),
{
    let updated = values.update(i, value);
    if i == values.len() - 1 {
        assert(updated.drop_last() =~= values.drop_last());
    } else {
        assert(updated.drop_last() =~= values.drop_last().update(i, value));
        lemma_sum_update(values.drop_last(), i, value);
    }
}

/// When an index grows, what it has promised grows by the growth times the
/// stake that shares the fees.
proof fn lemma_owed_grows(escrows: Seq<StakeEscrow>, cumulative: int, growth: int, side: Side)
    ensures
        total_owed(escrows, cumulative + growth, side) == total_owed(escrows, cumulative, side)
            + growth * total_sharing(escrows),
    decreases escrows.len(),
{
    let before = escrows.map_values(|e: StakeEscrow| owed(e, cumulative, side));
    let after = escrows.map_values(|e: StakeEscrow| owed(e, cumulative + growth, side));
    let stakes = escrows.map_values(|e: StakeEscrow| sharing(e));
    if escrows.len() == 0 {
        assert(growth * 0 == 0) by (nonlinear_arith);
    } else {
        let front = escrows.drop_last();
        let last = escrows.last();
        lemma_owed_grows(front, cumulative, growth, side);
        assert(before.drop_last() =~= front.map_values(|e: StakeEscrow| owed(e, cumulative, side)));
        assert(after.drop_last() =~= front.map_values(
            |e: StakeEscrow| owed(e, cumulative + growth, side),
        ));
        assert(stakes.drop_last() =~= front.map_values(|e: StakeEscrow| sharing(e)));
        let s = sharing(last);
        let c = checkpoint(last, side);
        assert(owed(last, cumulative + growth, side) == owed(last, cumulative, side) + growth * s)
            by {
            if last.in_top_list {
                assert(s * (cumulative + growth - c) == s * (cumulative - c) + growth * s)
                    by (nonlinear_arith);
            } else {
                assert(growth * 0 == 0) by (nonlinear_arith);
            }
        }
        let t = total_sharing(front);
        assert(growth * (t + s) == growth * t + growth * s) by (nonlinear_arith);
    }
}

/// Replacing one escrow changes each total by the difference of what the two
/// escrows add to it.
proof fn lemma_totals_update(
    escrows: Seq<StakeEscrow>,
    i: int,
    escrow: StakeEscrow,
    cumulative: int,
    side: Side,
)
    requires
        0 <= i < escrows.len(),
    ensures
        total_pending(escrows.update(i, escrow), side) == total_pending(escrows, side) - pending(
            escrows[i],
            side,
        ) + pending(escrow, side),
        total_owed(escrows.update(i, escrow), cumulative, side) == total_owed(
            escrows,
            cumulative,
            side,
        ) - owed(escrows[i], cumulative, side) + owed(escrow, cumulative, side),
        total_sharing(escrows.update(i, escrow)) == total_sharing(escrows) - sharing(escrows[i])
            + sharing(escrow),
{
    let updated = escrows.update(i, escrow);
    let p = escrows.map_values(|e: StakeEscrow| pending(e, side));
    assert(updated.map_values(|e: StakeEscrow| pending(e, side)) =~= p.update(
        i,
        pending(escrow, side),
    ));
    lemma_sum_update(p, i, pending(escrow, side));
    let o = escrows.map_values(|e: StakeEscrow| owed(e, cumulative, side));
    assert(updated.map_values(|e: StakeEscrow| owed(e, cumulative, side)) =~= o.update(
        i,
        owed(escrow, cumulative, side),
    ));
    lemma_sum_update(o, i, owed(escrow, cumulative, side));
    let s = escrows.map_values(|e: StakeEscrow| sharing(e));
    assert(updated.map_values(|e: StakeEscrow| sharing(e)) =~= s.update(i, sharing(escrow)));
    lemma_sum_update(s, i, sharing(escrow));
}

/// Conservation is kept by a pull: what is pulled is added to what is held
/// back, and nothing else moves.
pub proof fn lemma_pull_conserves(
    escrows: Seq<StakeEscrow>,
    info: TopStakerInfo,
    fee_a: u64,
    fee_b: u64,
    now: i64,
    paid: int,
    pulled: int,
    side: Side,
)
    requires
        conserved(escrows, info, paid, pulled, side),
        info.spec_pull(fee_a, fee_b, now) is Ok,
    ensures
        conserved(
            escrows,
            info.spec_pull(fee_a, fee_b, now)->Ok_0,
            paid,
            pulled + match side {
                Side::A => fee_a as int,
                Side::B => fee_b as int,
            },
            side,
        ),
{
    let fee: int = match side {
        Side::A => fee_a as int,
        Side::B => fee_b as int,
    };
    let q = scale();
    let x = total_pending(escrows, side) + locked(info, side) + paid;
    assert(q * (x + fee) == q * x + q * fee) by (nonlinear_arith);
    assert(q * (pulled + fee) == q * pulled + q * fee) by (nonlinear_arith);
}

/// Conservation is kept by a release: what leaves the held back fees is at
/// least what the growth of the index promises to the stake that shares it.
pub proof fn lemma_drip_conserves(
    escrows: Seq<StakeEscrow>,
    info: TopStakerInfo,
    window: u64,
    now: i64,
    paid: int,
    pulled: int,
    side: Side,
)
    requires
        conserved(escrows, info, paid, pulled, side),
        info.spec_drip(window, now) is Ok,
    ensures
        conserved(escrows, info.spec_drip(window, now)->Ok_0.0, paid, pulled, side),
{
    let after = info.spec_drip(window, now)->Ok_0.0;
    if info.effective_stake_amount != 0 {
        let passed = spec_elapsed(info.last_updated_at, now, window);
        let fee = spec_released(
            match side {
                Side::A => info.locked_fee_a,
                Side::B => info.locked_fee_b,
            },
            passed,
            window,
        );
        lemma_released_bounds(info.locked_fee_a, passed, window);
        lemma_released_bounds(info.locked_fee_b, passed, window);
        let effective = info.effective_stake_amount as int;
        let growth = spec_shl_div(fee, effective, Rounding::Down);
        lemma_shl_div_bound(
            spec_released(info.locked_fee_a, passed, window),
            effective,
            Rounding::Down,
        );
        lemma_shl_div_bound(
            spec_released(info.locked_fee_b, passed, window),
            effective,
            Rounding::Down,
        );
        lemma_growth_conserves(fee, effective);
        assert(index(after, side) == index(info, side) + growth);
        assert(locked(after, side) == locked(info, side) - fee);
        lemma_owed_grows(escrows, index(info, side), growth, side);
        let q = scale();
        let x = total_pending(escrows, side) + locked(info, side) + paid;
        assert(q * (x - fee) == q * x - fee * q) by (nonlinear_arith);
        assert(growth * effective == effective * growth) by (nonlinear_arith);
    }
}

/// Conservation is kept when an escrow is credited up to the index: what it is
/// credited is no more than what the index had promised it.
pub proof fn lemma_sync_conserves(
    escrows: Seq<StakeEscrow>,
    i: int,
    info: TopStakerInfo,
    paid: int,
    pulled: int,
    side: Side,
)
    requires
        0 <= i < escrows.len(),
        conserved(escrows, info, paid, pulled, side),
        escrows[i].spec_sync(
            info.cumulative_fee_a_per_liquidity,
            info.cumulative_fee_b_per_liquidity,
        ) is Ok,
    ensures
        conserved(
            escrows.update(
                i,
                escrows[i].spec_sync(
                    info.cumulative_fee_a_per_liquidity,
                    info.cumulative_fee_b_per_liquidity,
                )->Ok_0,
            ),
            info,
            paid,
            pulled,
            side,
        ),
{
    let before = escrows[i];
    let synced = before.spec_sync(
        info.cumulative_fee_a_per_liquidity,
        info.cumulative_fee_b_per_liquidity,
    )->Ok_0;
    let cumulative = index(info, side);
    lemma_totals_update(escrows, i, synced, cumulative, side);
    let updated = escrows.update(i, synced);
    assert(owed(synced, cumulative, side) == 0) by {
        assert(synced.stake_amount * 0 == 0) by (nonlinear_arith);
    }
    let q = scale();
    if before.in_top_list {
        lemma_accrued_conserves(
            before.stake_amount,
            info.cumulative_fee_a_per_liquidity,
            before.fee_a_per_liquidity_checkpoint,
        );
        lemma_accrued_conserves(
            before.stake_amount,
            info.cumulative_fee_b_per_liquidity,
            before.fee_b_per_liquidity_checkpoint,
        );
        let credit = pending(synced, side) - pending(before, side);
        assert(credit * q <= owed(before, cumulative, side));
        let x = total_pending(escrows, side) + locked(info, side) + paid;
        assert(q * (x + credit) == q * x + credit * q) by (nonlinear_arith);
    }
    assert forall|k: int| 0 <= k < updated.len() && (#[trigger] updated[k]).in_top_list implies checkpoint(
        updated[k],
        side,
    ) <= index(info, side) by {
        if k != i {
            assert(updated[k] == escrows[k]);
        }
    }
}

/// Conservation is kept when what leaves the pending fee of an escrow is counted
/// as paid, and nothing else that the fees depend on changes.
proof fn lemma_payout_conserves(
    escrows: Seq<StakeEscrow>,
    i: int,
    after: StakeEscrow,
    info: TopStakerInfo,
    fee: int,
    paid: int,
    pulled: int,
    side: Side,
)
    requires
        0 <= i < escrows.len(),
        conserved(escrows, info, paid, pulled, side),
        after.in_top_list == escrows[i].in_top_list,
        after.stake_amount == escrows[i].stake_amount,
        checkpoint(after, side) == checkpoint(escrows[i], side),
        pending(after, side) == pending(escrows[i], side) - fee,
    ensures
        conserved(escrows.update(i, after), info, paid + fee, pulled, side),
{
    let updated = escrows.update(i, after);
    lemma_totals_update(escrows, i, after, index(info, side), side);
    assert forall|k: int| 0 <= k < updated.len() && (#[trigger] updated[k]).in_top_list implies checkpoint(
        updated[k],
        side,
    ) <= index(info, side) by {
        if k != i {
            assert(updated[k] == escrows[k]);
        }
    }
}

/// Conservation is kept by a claim: the escrow is credited no more than the
/// index had promised it, and what it pays out is counted as paid.
pub proof fn lemma_claim_conserves(
    escrows: Seq<StakeEscrow>,
    i: int,
    info: TopStakerInfo,
    max_fee: u64,
    paid: int,
    pulled: int,
    side: Side,
)
    requires
        0 <= i < escrows.len(),
        conserved(escrows, info, paid, pulled, side),
        escrows[i].spec_claim(
            info.cumulative_fee_a_per_liquidity,
            info.cumulative_fee_b_per_liquidity,
            max_fee,
        ) is Ok,
    ensures
        ({
            let claimed = escrows[i].spec_claim(
                info.cumulative_fee_a_per_liquidity,
                info.cumulative_fee_b_per_liquidity,
                max_fee,
            )->Ok_0;
            conserved(
                escrows.update(i, claimed.0),
                info,
                paid + match side {
                    Side::A => claimed.1.fee_a as int,
                    Side::B => claimed.1.fee_b as int,
                },
                pulled,
                side,
            )
        }),
{
    let synced = escrows[i].spec_sync(
        info.cumulative_fee_a_per_liquidity,
        info.cumulative_fee_b_per_liquidity,
    )->Ok_0;
    let claimed = escrows[i].spec_claim(
        info.cumulative_fee_a_per_liquidity,
        info.cumulative_fee_b_per_liquidity,
        max_fee,
    )->Ok_0;
    lemma_sync_conserves(escrows, i, info, paid, pulled, side);
    let credited = escrows.update(i, synced);
    let fee: int = match side {
        Side::A => claimed.1.fee_a as int,
        Side::B => claimed.1.fee_b as int,
    };
    lemma_payout_conserves(credited, i, claimed.0, info, fee, paid, pulled, side);
    assert(credited.update(i, claimed.0) =~= escrows.update(i, claimed.0));
}

/// Conservation is kept when an escrow that is credited up to the index
/// changes its stake or its place in or out of the list, and the vault's
/// effective stake follows: nothing was promised to it that is not yet credited,
/// so nothing is lost or made.
pub proof fn lemma_restake_conserves(
    escrows: Seq<StakeEscrow>,
    i: int,
    info: TopStakerInfo,
    stake_amount: u64,
    ongoing_total_partial_unstake_amount: u64,
    in_top_list: bool,
    effective_stake_amount: u64,
    paid: int,
    pulled: int,
    side: Side,
)
    requires
        0 <= i < escrows.len(),
        conserved(escrows, info, paid, pulled, side),
        checkpoint(escrows[i], side) == index(info, side),
        effective_stake_amount == info.effective_stake_amount - sharing(escrows[i]) + (
        if in_top_list {
            stake_amount as int
        } else {
            0
        }),
    ensures
        conserved(
            escrows.update(
                i,
                StakeEscrow {
                    stake_amount,
                    ongoing_total_partial_unstake_amount,
                    in_top_list,
                    ..escrows[i]
                },
            ),
            TopStakerInfo { effective_stake_amount, ..info },
            paid,
            pulled,
            side,
        ),
{
    let before = escrows[i];
    let after = StakeEscrow {
        stake_amount,
        ongoing_total_partial_unstake_amount,
        in_top_list,
        ..before
    };
    let updated = escrows.update(i, after);
    let cumulative = index(info, side);
    lemma_totals_update(escrows, i, after, cumulative, side);
    assert(owed(before, cumulative, side) == 0) by {
        assert(before.stake_amount * 0 == 0) by (nonlinear_arith);
    }
    assert(owed(after, cumulative, side) == 0) by {
        assert(after.stake_amount * 0 == 0) by (nonlinear_arith);
    }
    assert forall|k: int| 0 <= k < updated.len() && (#[trigger] updated[k]).in_top_list implies checkpoint(
        updated[k],
        side,
    ) <= index(info, side) by {
        if k != i {
            assert(updated[k] == escrows[k]);
        }
    }
}

/// Never over-pay: while conservation holds, what the escrows have pending,
/// what the vault holds back and what was paid out are together no more than
/// what was pulled from the pool.
pub proof fn lemma_conserved_bound(
    escrows: Seq<StakeEscrow>,
    info: TopStakerInfo,
    paid: int,
    pulled: int,
    side: Side,
)
    requires
        conserved(escrows, info, paid, pulled, side),
    ensures
        total_pending(escrows, side) + locked(info, side) + paid <= pulled,
{
    lemma_owed_nonnegative(escrows, info, side);
    let x = total_pending(escrows, side) + locked(info, side) + paid;
    assert(x <= pulled) by (nonlinear_arith)
        requires
            scale() * x <= scale() * pulled,
            scale() > 0,
    ;
}

/// What an index has promised is never negative while no escrow of the list
/// has a checkpoint ahead of the index.
proof fn lemma_owed_nonnegative(escrows: Seq<StakeEscrow>, info: TopStakerInfo, side: Side)
    requires
        forall|i: int|
            0 <= i < escrows.len() && (#[trigger] escrows[i]).in_top_list ==> checkpoint(
                escrows[i],
                side,
            ) <= index(info, side),
    ensures
        total_owed(escrows, index(info, side), side) >= 0,
    decreases escrows.len(),
{
    if escrows.len() > 0 {
        let front = escrows.drop_last();
        let last = escrows.last();
        assert forall|i: int| 0 <= i < front.len() && (#[trigger] front[i]).in_top_list implies checkpoint(
            front[i],
            side,
        ) <= index(info, side) by {
            assert(front[i] == escrows[i]);
        }
        lemma_owed_nonnegative(front, info, side);
        let values = escrows.map_values(|e: StakeEscrow| owed(e, index(info, side), side));
        assert(values.drop_last() =~= front.map_values(
            |e: StakeEscrow| owed(e, index(info, side), side),
        ));
        assert(escrows[escrows.len() - 1] == last);
        if last.in_top_list {
            let s = last.stake_amount as int;
            let d = index(info, side) - checkpoint(last, side);
            assert(s * d >= 0) by (nonlinear_arith)
                requires
                    s >= 0,
                    d >= 0,
            ;
        }
    }
}

/// At the start nothing is pending, held back, paid or pulled, and conservation
/// holds.
pub proof fn lemma_conserved_initially(info: TopStakerInfo, side: Side)
    requires
        info.locked_fee_a == 0,
        info.locked_fee_b == 0,
        info.effective_stake_amount == 0,
    ensures
        conserved(Seq::<StakeEscrow>::empty(), info, 0, 0, side),
{
    assert(scale() * 0 == 0) by (nonlinear_arith);
}

} // verus!
