use crate::constant::MIN_LOCK_ESCROW_CLAIM_FEE_DURATION;
use crate::errors::StakeForFeeError;
use crate::math::safe_mul_div_cast_u64;
use crate::math::safe_shl_div;
use crate::math::spec_shl_div;
use crate::math::Rounding;
use vstd::arithmetic::div_mod::lemma_div_by_multiple;
use vstd::arithmetic::div_mod::lemma_div_is_ordered;
use vstd::arithmetic::div_mod::lemma_div_pos_is_pos;
use vstd::prelude::*;

verus! {

/// The state of a vault's fee release: what is held back, what has been released
/// per unit of stake, and the stake that shares it.
#[derive(Clone, Copy, Debug, PartialEq, Eq, Structural)]
pub struct TopStakerInfo {
    /// Number of slots in the top staker list.
    pub top_list_length: u64,
    /// Number of slots that hold a staker.
    pub current_length: u64,
    /// Sum of the amounts staked by the stakers in the list.
    pub effective_stake_amount: u64,
    /// When fees were last pulled from the pool.
    pub last_claim_fee_at: i64,
    /// When fees were last released.
    pub last_updated_at: i64,
    /// Fee of side A pulled and not yet released.
    pub locked_fee_a: u64,
    /// Fee of side B pulled and not yet released.
    pub locked_fee_b: u64,
    /// Fee of side A released so far per unit of stake, in Q64.64.
    pub cumulative_fee_a_per_liquidity: u128,
    /// Fee of side B released so far per unit of stake, in Q64.64.
    pub cumulative_fee_b_per_liquidity: u128,
}

/// The amounts one release takes out of the held back fees, by side.
#[derive(Clone, Copy, Debug, PartialEq, Eq, Structural)]
pub struct ReleasedFee {
    pub fee_a: u64,
    pub fee_b: u64,
}

/// The part of the release window that has passed at `now` since
/// `last_updated_at`: never negative, never more than the window.
pub open spec fn spec_elapsed(last_updated_at: i64, now: i64, window: u64) -> int {
    if now <= last_updated_at {
        0
    } else if now - last_updated_at >= window {
        window as int
    } else {
        now - last_updated_at
    }
}

/// What is released of `locked` after `elapsed` seconds of a window of `window`
/// seconds: the share of the window that has passed, rounded down.
pub open spec fn spec_released(locked: u64, elapsed: int, window: u64) -> int {
    locked * elapsed / (window as int)
}

/// A release takes nothing more than is held back, and takes all of it once the
/// whole window has passed.
pub proof fn lemma_released_bounds(locked: u64, elapsed: int, window: u64)
    requires
        0 <= elapsed <= window,
        window > 0,
    ensures
        0 <= spec_released(locked, elapsed, window) <= locked,
        elapsed == window ==> spec_released(locked, elapsed, window) == locked,
        elapsed == 0 ==> spec_released(locked, elapsed, window) == 0,
{
    let w = window as int;
    let l = locked as int;
    assert(0 <= l * elapsed <= l * w) by (nonlinear_arith)
        requires
            0 <= l,
            0 <= elapsed <= w,
    ;
    lemma_div_pos_is_pos(l * elapsed, w);
    lemma_div_is_ordered(l * elapsed, l * w, w);
    lemma_div_by_multiple(l, w);
    if elapsed == 0 {
        assert(l * elapsed == 0) by (nonlinear_arith)
            requires
                elapsed == 0,
        ;
    }
}

/// Computes the part of the release window that has passed.
pub fn elapsed(last_updated_at: i64, now: i64, window: u64) -> (r: u64)
    ensures
        r == spec_elapsed(last_updated_at, now, window),
        r <= window,
{
    let passed: i128 = now as i128 - last_updated_at as i128;
    if passed <= 0 {
        0
    } else if passed >= window as i128 {
        window
    } else {
        passed as u64
    }
}

/// Computes what is released of `locked`. Fails with `MathOverflow` exactly when
/// the window is zero.
pub fn released(locked: u64, elapsed: u64, window: u64) -> (r: Result<u64, StakeForFeeError>)
    requires
        elapsed <= window,
    ensures
        window == 0 ==> r == Err::<u64, StakeForFeeError>(StakeForFeeError::MathOverflow),
        window != 0 ==> r == Ok::<u64, StakeForFeeError>(
            spec_released(locked, elapsed as int, window) as u64,
        ),
        window != 0 ==> 0 <= spec_released(locked, elapsed as int, window) <= locked,
{
    if window == 0 {
        return Err(StakeForFeeError::MathOverflow);
    }
    proof {
        lemma_released_bounds(locked, elapsed as int, window);
        assert(locked * elapsed <= u64::MAX * u64::MAX) by (nonlinear_arith)
            requires
                locked <= u64::MAX,
                elapsed <= u64::MAX,
        ;
    }
    safe_mul_div_cast_u64(locked as u128 * elapsed as u128, window as u128)
}

impl TopStakerInfo {
    /// The state after the release that is due at `now`, with what was released,
    /// or the error that stops it.
    ///
    /// With no stake in the list nothing is released: the fees stay held back
    /// and the indices stay where they are. Otherwise each side gives up the share
    /// of the window that has passed, and its index grows by that amount per unit
    /// of stake, rounded down.
    pub open spec fn spec_drip(self, window: u64, now: i64) -> Result<
        (TopStakerInfo, ReleasedFee),
        StakeForFeeError,
    > {
        let passed = spec_elapsed(self.last_updated_at, now, window);
        if window == 0 {
            Err(StakeForFeeError::MathOverflow)
        } else if self.effective_stake_amount == 0 {
            Ok((TopStakerInfo { last_updated_at: now, ..self }, ReleasedFee { fee_a: 0, fee_b: 0 }))
        } else {
            let fee_a = spec_released(self.locked_fee_a, passed, window);
            let fee_b = spec_released(self.locked_fee_b, passed, window);
            let index_a = self.cumulative_fee_a_per_liquidity + spec_shl_div(
                fee_a,
                self.effective_stake_amount as int,
                Rounding::Down,
            );
            let index_b = self.cumulative_fee_b_per_liquidity + spec_shl_div(
                fee_b,
                self.effective_stake_amount as int,
                Rounding::Down,
            );
            if index_a > u128::MAX || index_b > u128::MAX {
                Err(StakeForFeeError::MathOverflow)
            } else {
                Ok(
                    (
                        TopStakerInfo {
                            last_updated_at: now,
                            locked_fee_a: (self.locked_fee_a - fee_a) as u64,
                            locked_fee_b: (self.locked_fee_b - fee_b) as u64,
                            cumulative_fee_a_per_liquidity: index_a as u128,
                            cumulative_fee_b_per_liquidity: index_b as u128,
                            ..self
                        },
                        ReleasedFee { fee_a: fee_a as u64, fee_b: fee_b as u64 },
                    ),
                )
            }
        }
    }

    /// Releases what is due at `now` of the held back fees into the indices, and
    /// returns what was released. On an error nothing is changed.
    pub fn drip(&mut self, window: u64, now: i64) -> (r: Result<ReleasedFee, StakeForFeeError>)
        ensures
            match old(self).spec_drip(window, now) {
                Ok((after, fee)) => r == Ok::<ReleasedFee, StakeForFeeError>(fee) && *final(self)
                    == after,
                Err(e) => r == Err::<ReleasedFee, StakeForFeeError>(e) && *final(self) == *old(
                    self,
                ),
            },
    {
        if window == 0 {
            return Err(StakeForFeeError::MathOverflow);
        }
        if self.effective_stake_amount == 0 {
            self.last_updated_at = now;
            return Ok(ReleasedFee { fee_a: 0, fee_b: 0 });
        }
        let passed = elapsed(self.last_updated_at, now, window);
        let fee_a = released(self.locked_fee_a, passed, window)?;
        let fee_b = released(self.locked_fee_b, passed, window)?;
        let growth_a = safe_shl_div(fee_a, self.effective_stake_amount, Rounding::Down)?;
        let growth_b = safe_shl_div(fee_b, self.effective_stake_amount, Rounding::Down)?;
        let index_a = match self.cumulative_fee_a_per_liquidity.checked_add(growth_a) {
            Some(v) => v,
            None => {
                return Err(StakeForFeeError::MathOverflow);
            },
        };
        let index_b = match self.cumulative_fee_b_per_liquidity.checked_add(growth_b) {
            Some(v) => v,
            None => {
                return Err(StakeForFeeError::MathOverflow);
            },
        };
        self.locked_fee_a = self.locked_fee_a - fee_a;
        self.locked_fee_b = self.locked_fee_b - fee_b;
        self.cumulative_fee_a_per_liquidity = index_a;
        self.cumulative_fee_b_per_liquidity = index_b;
        self.last_updated_at = now;
        Ok(ReleasedFee { fee_a, fee_b })
    }

    /// Whether a pull from the pool is due at `now`: the time since the last pull
    /// is at least the minimum.
    pub open spec fn spec_pull_due(self, now: i64) -> bool {
        now >= self.last_claim_fee_at + MIN_LOCK_ESCROW_CLAIM_FEE_DURATION
    }

    /// Tells whether a pull from the pool is due at `now`.
    pub fn pull_due(&self, now: i64) -> (r: bool)
        ensures
            r == self.spec_pull_due(now),
    {
        now as i128 >= self.last_claim_fee_at as i128 + MIN_LOCK_ESCROW_CLAIM_FEE_DURATION as i128
    }

    /// The state after fees pulled at `now` are added to the held back fees, or
    /// the error that stops it.
    pub open spec fn spec_pull(self, fee_a: u64, fee_b: u64, now: i64) -> Result<
        TopStakerInfo,
        StakeForFeeError,
    > {
        if self.locked_fee_a + fee_a > u64::MAX || self.locked_fee_b + fee_b > u64::MAX {
            Err(StakeForFeeError::MathOverflow)
        } else {
            Ok(
                TopStakerInfo {
                    locked_fee_a: (self.locked_fee_a + fee_a) as u64,
                    locked_fee_b: (self.locked_fee_b + fee_b) as u64,
                    last_claim_fee_at: now,
                    ..self
                },
            )
        }
    }

    /// Adds fees pulled from the pool at `now` to the held back fees. Fails with
    /// `MathOverflow`, changing nothing, exactly when a side would exceed 64 bits.
    pub fn pull(&mut self, fee_a: u64, fee_b: u64, now: i64) -> (r: Result<(), StakeForFeeError>)
        ensures
            match old(self).spec_pull(fee_a, fee_b, now) {
                Ok(after) => r is Ok && *final(self) == after,
                Err(e) => r == Err::<(), StakeForFeeError>(e) && *final(self) == *old(self),
            },
    {
        let locked_a = match self.locked_fee_a.checked_add(fee_a) {
            Some(v) => v,
            None => {
                return Err(StakeForFeeError::MathOverflow);
            },
        };
        let locked_b = match self.locked_fee_b.checked_add(fee_b) {
            Some(v) => v,
            None => {
                return Err(StakeForFeeError::MathOverflow);
            },
        };
        self.locked_fee_a = locked_a;
        self.locked_fee_b = locked_b;
        self.last_claim_fee_at = now;
        Ok(())
    }
}

} // verus!
