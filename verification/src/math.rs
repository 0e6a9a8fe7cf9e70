use crate::errors::StakeForFeeError;
use vstd::arithmetic::div_mod::lemma_div_pos_is_pos;
use vstd::arithmetic::div_mod::lemma_hoist_over_denominator;
use vstd::prelude::*;

verus! {

/// Direction in which a fixed-point result is rounded.
#[derive(Clone, Copy, Debug, PartialEq, Eq, Structural)]
pub enum Rounding {
    /// Towards the next representable value above.
    Up,
    /// Towards the next representable value below.
    Down,
}

/// The fixed-point unit: `2^64`, the value that stands for one.
pub const ONE: u128 = 0x1_0000_0000_0000_0000;

/// The fixed-point unit as a mathematical integer.
pub open spec fn scale() -> int {
    0x1_0000_0000_0000_0000
}

/// `numer / denom`, rounded as asked. Meant for `numer >= 0` and `denom > 0`.
pub open spec fn div_rounded(numer: int, denom: int, rounding: Rounding) -> int {
    match rounding {
        Rounding::Down => numer / denom,
        Rounding::Up => (numer + denom - 1) / denom,
    }
}

/// The product of two Q64.64 values as a Q64.64 value: `a * b / 2^64`.
pub open spec fn spec_mul_shr(a: int, b: int, rounding: Rounding) -> int {
    div_rounded(a * b, scale(), rounding)
}

/// An integer amount per unit of `denom`, as a Q64.64 value: `amount * 2^64 / denom`.
pub open spec fn spec_shl_div(amount: int, denom: int, rounding: Rounding) -> int {
    div_rounded(amount * scale(), denom, rounding)
}

/// Splits a product of two 128-bit values by their 64-bit halves.
proof fn lemma_limb_product(ah: int, al: int, bh: int, bl: int, extra: int)
    requires
        0 <= al < scale(),
        0 <= bl < scale(),
        0 <= ah,
        0 <= bh,
        0 <= extra,
    ensures
        ((ah * scale() + al) * (bh * scale() + bl) + extra) / scale() == ah * bh * scale() + ah
            * bl + al * bh + (al * bl + extra) / scale(),
{
    let q = scale();
    let high = ah * bh * q + ah * bl + al * bh;
    lemma_limb_expansion(ah, al, bh, bl, q);
    lemma_hoist_over_denominator(al * bl + extra, high, q as nat);
}

/// The product of two two-digit numbers in any base `q`.
proof fn lemma_limb_expansion(ah: int, al: int, bh: int, bl: int, q: int)
    ensures
        (ah * q + al) * (bh * q + bl) == al * bl + (ah * bh * q + ah * bl + al * bh) * q,
{
    let a1 = ah * q;
    let b1 = bh * q;
    let x = ah * bh * q;
    let y = ah * bl;
    let z = al * bh;
    assert((a1 + al) * (b1 + bl) == a1 * b1 + a1 * bl + al * b1 + al * bl) by (nonlinear_arith);
    assert(a1 * b1 == x * q) by (nonlinear_arith)
        requires
            a1 == ah * q,
            b1 == bh * q,
            x == ah * bh * q,
    ;
    assert(a1 * bl == y * q) by (nonlinear_arith)
        requires
            a1 == ah * q,
            y == ah * bl,
    ;
    assert(al * b1 == z * q) by (nonlinear_arith)
        requires
            b1 == bh * q,
            z == al * bh,
    ;
    assert(x * q + y * q + z * q == (x + y + z) * q) by (nonlinear_arith);
}

/// Multiplies two Q64.64 values: `(a * b) >> 64`, rounded as asked.
///
/// Fails with `MathOverflow` exactly when the result does not fit in 128 bits.
pub fn mul_shr(a: u128, b: u128, rounding: Rounding) -> (r: Result<u128, StakeForFeeError>)
    ensures
        spec_mul_shr(a as int, b as int, rounding) <= u128::MAX ==> r == Ok::<
            u128,
            StakeForFeeError,
        >(spec_mul_shr(a as int, b as int, rounding) as u128),
        spec_mul_shr(a as int, b as int, rounding) > u128::MAX ==> r == Err::<
            u128,
            StakeForFeeError,
        >(StakeForFeeError::MathOverflow),
{
    let ah: u128 = a / ONE;
    let al: u128 = a % ONE;
    let bh: u128 = b / ONE;
    let bl: u128 = b % ONE;
    let extra: u128 = match rounding {
        Rounding::Down => 0,
        Rounding::Up => ONE - 1,
    };
    assert(al * bl <= (ONE - 1) * (ONE - 1)) by (nonlinear_arith)
        requires
            al <= ONE - 1,
            bl <= ONE - 1,
    ;
    assert(ah * bl <= (ONE - 1) * (ONE - 1)) by (nonlinear_arith)
        requires
            ah <= ONE - 1,
            bl <= ONE - 1,
    ;
    assert(al * bh <= (ONE - 1) * (ONE - 1)) by (nonlinear_arith)
        requires
            al <= ONE - 1,
            bh <= ONE - 1,
    ;
    assert(ah * bh <= (ONE - 1) * (ONE - 1)) by (nonlinear_arith)
        requires
            ah <= ONE - 1,
            bh <= ONE - 1,
    ;
    let hh: u128 = ah * bh;
    let hl: u128 = ah * bl;
    let lh: u128 = al * bh;
    let low: u128 = (al * bl + extra) / ONE;
    proof {
        lemma_limb_product(ah as int, al as int, bh as int, bl as int, extra as int);
        assert(a as int == ah * scale() + al);
        assert(b as int == bh * scale() + bl);
        assert(spec_mul_shr(a as int, b as int, rounding) == hh * scale() + hl + lh + low);
    }
    if hh >= ONE {
        assert(hh * scale() >= scale() * scale()) by (nonlinear_arith)
            requires
                hh >= scale(),
        ;
        return Err(StakeForFeeError::MathOverflow);
    }
    assert(hh * ONE <= (ONE - 1) * ONE) by (nonlinear_arith)
        requires
            hh <= ONE - 1,
    ;
    let top: u128 = hh * ONE;
    let partial = match top.checked_add(hl) {
        Some(v) => v,
        None => {
            return Err(StakeForFeeError::MathOverflow);
        },
    };
    let middle = match partial.checked_add(lh) {
        Some(v) => v,
        None => {
            return Err(StakeForFeeError::MathOverflow);
        },
    };
    match middle.checked_add(low) {
        Some(v) => Ok(v),
        None => Err(StakeForFeeError::MathOverflow),
    }
}

/// Divides `amount << 64` by `denom`, rounded as asked: the per-liquidity value of
/// `amount` spread over `denom` units.
///
/// Fails with `MathOverflow` exactly when `denom` is zero.
pub fn safe_shl_div(amount: u64, denom: u64, rounding: Rounding) -> (r: Result<
    u128,
    StakeForFeeError,
>)
    ensures
        denom == 0 ==> r == Err::<u128, StakeForFeeError>(StakeForFeeError::MathOverflow),
        denom != 0 ==> r == Ok::<u128, StakeForFeeError>(
            spec_shl_div(amount as int, denom as int, rounding) as u128,
        ),
        denom != 0 ==> 0 <= spec_shl_div(amount as int, denom as int, rounding) <= amount
            * scale(),
{
    if denom == 0 {
        return Err(StakeForFeeError::MathOverflow);
    }
    assert(amount * ONE <= 0xffff_ffff_ffff_ffff * ONE) by (nonlinear_arith)
        requires
            amount <= 0xffff_ffff_ffff_ffff,
    ;
    let numer: u128 = (amount as u128) * ONE;
    let d: u128 = denom as u128;
    proof {
        lemma_shl_div_bound(amount as int, denom as int, rounding);
    }
    match rounding {
        Rounding::Down => Ok(numer / d),
        Rounding::Up => Ok((numer + (d - 1)) / d),
    }
}

/// A per-liquidity value never exceeds the shifted amount it was made from.
pub proof fn lemma_shl_div_bound(amount: int, denom: int, rounding: Rounding)
    requires
        0 <= amount,
        0 < denom,
    ensures
        0 <= spec_shl_div(amount, denom, rounding) <= amount * scale(),
{
    let n = amount * scale();
    assert(0 <= n) by (nonlinear_arith)
        requires
            0 <= amount,
            n == amount * scale(),
    ;
    lemma_div_pos_is_pos(n, denom);
    lemma_div_pos_is_pos(n + denom - 1, denom);
    assert((n + denom - 1) / denom <= n) by (nonlinear_arith)
        requires
            0 <= n,
            0 < denom,
    ;
    assert(n / denom <= n) by (nonlinear_arith)
        requires
            0 <= n,
            0 < denom,
    ;
}

/// Divides `numer` by `denom`, rounding down, and narrows the quotient to 64 bits.
///
/// Fails with `MathOverflow` when `denom` is zero, and with `TypeCastFailed` when the
/// quotient does not fit in 64 bits.
pub fn safe_mul_div_cast_u64(numer: u128, denom: u128) -> (r: Result<u64, StakeForFeeError>)
    ensures
        denom == 0 ==> r == Err::<u64, StakeForFeeError>(StakeForFeeError::MathOverflow),
        denom != 0 && numer / denom > u64::MAX ==> r == Err::<u64, StakeForFeeError>(
            StakeForFeeError::TypeCastFailed,
        ),
        denom != 0 && numer / denom <= u64::MAX ==> r == Ok::<u64, StakeForFeeError>(
            (numer / denom) as u64,
        ),
{
    if denom == 0 {
        return Err(StakeForFeeError::MathOverflow);
    }
    let q: u128 = numer / denom;
    if q > 0xffff_ffff_ffff_ffff {
        return Err(StakeForFeeError::TypeCastFailed);
    }
    Ok(q as u64)
}

} // verus!
