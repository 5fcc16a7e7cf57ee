//! Derives vesting quantities from a schedule snapshot and a timestamp.
//!
//! The linear-unlock computation uses exact rational arithmetic over wide
//! integer intermediates: the period index is floored first, then the
//! product of the index and the grant is divided by the period count,
//! flooring again. This order makes vesting release whole-token amounts
//! only at period boundaries.

use vstd::arithmetic::div_mod::{
    lemma_div_is_ordered, lemma_div_pos_is_pos, lemma_multiply_divide_le, lemma_multiply_divide_lt,
};
use vstd::arithmetic::mul::{
    lemma_mul_inequality, lemma_mul_nonnegative, lemma_mul_strict_inequality,
    lemma_mul_upper_bound,
};
use vstd::prelude::*;

use crate::schedule::{ArithmeticInvariantViolation, VestingSchedule};

verus! {

/// Index of the last fully elapsed vesting period at time `t`, for `t`
/// inside the linear regime. Partial progress through the current period is
/// discarded: `floor((t - start_ts) * period_count / (end_ts - start_ts))`.
pub open spec fn period_index(s: VestingSchedule, t: int) -> int {
    ((t - s.start_ts) * s.period_count) / (s.end_ts - s.start_ts)
}

/// Tokens unlocked at time `t` inside the linear regime: the number of
/// fully elapsed periods times the per-period reward, truncated down to a
/// whole token amount: `floor(period_index * start_balance / period_count)`.
pub open spec fn linear_unlocked(s: VestingSchedule, t: int) -> int {
    (period_index(s, t) * s.start_balance) / (s.period_count as int)
}

/// Total tokens vested at time `t`, assuming no withdrawals: zero before
/// `start_ts`, the full grant from `end_ts` on, and the linear unlock
/// amount in between.
pub open spec fn vested(s: VestingSchedule, t: int) -> int {
    if t < s.start_ts {
        0
    } else if t >= s.end_ts {
        s.start_balance as int
    } else {
        linear_unlocked(s, t)
    }
}

/// Tokens ever withdrawn from the account; derived, never stored. Negative
/// exactly when the record's `outstanding <= start_balance` invariant is
/// broken.
pub open spec fn withdrawn(s: VestingSchedule) -> int {
    s.start_balance - s.outstanding
}

/// Funds physically present in the vault and not on loan to a whitelisted
/// program. Negative exactly when `whitelist_owned <= outstanding` is
/// broken.
pub open spec fn vault_balance(s: VestingSchedule) -> int {
    s.outstanding - s.whitelist_owned
}

/// Tokens that have vested per schedule but have not yet been withdrawn.
pub open spec fn unwithdrawn_vested(s: VestingSchedule, t: int) -> int {
    vested(s, t) - withdrawn(s)
}

/// What the beneficiary may withdraw at time `t`: the lesser of the
/// vested-but-unwithdrawn amount and the physical vault balance.
pub open spec fn withdrawable(s: VestingSchedule, t: int) -> int {
    if unwithdrawn_vested(s, t) <= vault_balance(s) {
        unwithdrawn_vested(s, t)
    } else {
        vault_balance(s)
    }
}

/// Tokens unlocked inside the linear regime.
///
/// Computes `floor(floor(elapsed * period_count / window) * start_balance
/// / period_count)` with `u128` intermediates, so no product can overflow
/// and the result is exact on every platform.
pub fn linear_unlock(vesting: &VestingSchedule, current_ts: i64) -> (r: u64)
    requires
        vesting.wf(),
        vesting.start_ts <= current_ts,
        current_ts < vesting.end_ts,
    ensures
        r == linear_unlocked(*vesting, current_ts as int),
        r <= vesting.start_balance,
{
    let elapsed: u128 = ((current_ts as i128) - (vesting.start_ts as i128)) as u128;
    let window: u128 = ((vesting.end_ts as i128) - (vesting.start_ts as i128)) as u128;
    let periods: u128 = vesting.period_count as u128;
    let grant: u128 = vesting.start_balance as u128;
    proof {
        assert(elapsed == current_ts - vesting.start_ts);
        assert(window == vesting.end_ts - vesting.start_ts);
        assert(elapsed <= u64::MAX && periods <= u64::MAX);
        lemma_mul_upper_bound(elapsed as int, u64::MAX as int, periods as int, u64::MAX as int);
    }
    let scaled: u128 = elapsed * periods;
    let current_period: u128 = scaled / window;
    proof {
        lemma_mul_strict_inequality(elapsed as int, window as int, periods as int);
        lemma_multiply_divide_lt((elapsed as int) * (periods as int), window as int, periods as int);
        assert(current_period < periods);
        assert(current_period as int == period_index(*vesting, current_ts as int));
        lemma_mul_upper_bound(current_period as int, u64::MAX as int, grant as int, u64::MAX as int);
    }
    let total: u128 = current_period * grant;
    let reward: u128 = total / periods;
    proof {
        lemma_mul_inequality(current_period as int, periods as int, grant as int);
        lemma_multiply_divide_le((current_period as int) * (grant as int), periods as int, grant as int);
        assert(reward <= grant);
        assert(reward as int == linear_unlocked(*vesting, current_ts as int));
    }
    reward as u64
}

/// Total vested amount up to `current_ts`, assuming zero withdrawals and
/// zero funds sent to other programs. Defined for every timestamp: zero
/// before vesting begins, the full grant once the window has closed.
pub fn total_vested(vesting: &VestingSchedule, current_ts: i64) -> (r: u64)
    requires
        vesting.wf(),
    ensures
        r == vested(*vesting, current_ts as int),
        r <= vesting.start_balance,
        current_ts < vesting.start_ts ==> r == 0,
        current_ts >= vesting.end_ts ==> r == vesting.start_balance,
{
    if current_ts < vesting.start_ts {
        0
    } else if current_ts >= vesting.end_ts {
        vesting.start_balance
    } else {
        linear_unlock(vesting, current_ts)
    }
}

/// Inside the linear regime the period index is between zero and
/// `period_count - 1`, and the unlocked amount is between zero and the
/// full grant.
pub proof fn lemma_linear_unlocked_bounds(s: VestingSchedule, t: int)
    requires
        s.wf(),
        s.start_ts <= t < s.end_ts,
    ensures
        0 <= period_index(s, t) < s.period_count,
        0 <= linear_unlocked(s, t) <= s.start_balance,
{
    let elapsed: int = t - s.start_ts;
    let window: int = s.end_ts - s.start_ts;
    let periods: int = s.period_count as int;
    let grant: int = s.start_balance as int;
    lemma_mul_nonnegative(elapsed, periods);
    lemma_div_pos_is_pos(elapsed * periods, window);
    lemma_mul_strict_inequality(elapsed, window, periods);
    lemma_multiply_divide_lt(elapsed * periods, window, periods);
    let p: int = period_index(s, t);
    lemma_mul_nonnegative(p, grant);
    lemma_div_pos_is_pos(p * grant, periods);
    lemma_mul_inequality(p, periods, grant);
    lemma_multiply_divide_le(p * grant, periods, grant);
}

/// The total vested amount never falls below zero nor exceeds the original
/// grant, at any timestamp.
pub proof fn lemma_vested_bounds(s: VestingSchedule, t: int)
    requires
        s.wf(),
    ensures
        0 <= vested(s, t) <= s.start_balance,
{
    if s.start_ts <= t && t < s.end_ts {
        lemma_linear_unlocked_bounds(s, t);
    }
}

/// Vesting is monotone: as time moves forward the total vested amount
/// never decreases.
pub proof fn lemma_vested_monotonic(s: VestingSchedule, t1: int, t2: int)
    requires
        s.wf(),
        t1 <= t2,
    ensures
        vested(s, t1) <= vested(s, t2),
{
    if t1 < s.start_ts {
        lemma_vested_bounds(s, t2);
    } else if t2 >= s.end_ts {
        lemma_vested_bounds(s, t1);
    } else {
        let window: int = s.end_ts - s.start_ts;
        let periods: int = s.period_count as int;
        let grant: int = s.start_balance as int;
        lemma_mul_inequality(t1 - s.start_ts, t2 - s.start_ts, periods);
        lemma_div_is_ordered((t1 - s.start_ts) * periods, (t2 - s.start_ts) * periods, window);
        lemma_mul_inequality(period_index(s, t1), period_index(s, t2), grant);
        lemma_div_is_ordered(period_index(s, t1) * grant, period_index(s, t2) * grant, periods);
    }
}

/// Vesting releases tokens only at period boundaries: two instants of the
/// linear regime that fall inside the same period see the same vested
/// amount, so there is no continuous accrual between boundaries.
pub proof fn lemma_vested_constant_within_period(s: VestingSchedule, t1: int, t2: int)
    requires
        s.wf(),
        s.start_ts <= t1 <= t2 < s.end_ts,
        period_index(s, t1) == period_index(s, t2),
    ensures
        vested(s, t1) == vested(s, t2),
{
}

/// Amount withdrawn from this vesting account so far. Fails exactly when
/// `outstanding` exceeds `start_balance`, a broken record invariant.
pub fn withdrawn_amount(vesting: &VestingSchedule) -> (r: Result<
    u64,
    ArithmeticInvariantViolation,
>)
    ensures
        r is Ok <==> vesting.outstanding <= vesting.start_balance,
        r is Ok ==> r->Ok_0 == withdrawn(*vesting),
        r is Err ==> r->Err_0 == ArithmeticInvariantViolation,
{
    if vesting.outstanding <= vesting.start_balance {
        Ok(vesting.start_balance - vesting.outstanding)
    } else {
        Err(ArithmeticInvariantViolation)
    }
}

/// Amount of funds currently in the vault and not on loan. Fails exactly
/// when `whitelist_owned` exceeds `outstanding`, a broken record invariant.
pub fn balance(vesting: &VestingSchedule) -> (r: Result<u64, ArithmeticInvariantViolation>)
    ensures
        r is Ok <==> vesting.whitelist_owned <= vesting.outstanding,
        r is Ok ==> r->Ok_0 == vault_balance(*vesting),
        r is Err ==> r->Err_0 == ArithmeticInvariantViolation,
{
    if vesting.whitelist_owned <= vesting.outstanding {
        Ok(vesting.outstanding - vesting.whitelist_owned)
    } else {
        Err(ArithmeticInvariantViolation)
    }
}

/// Amount of outstanding locked tokens vested at `current_ts`. Note that
/// these tokens might have been transferred to whitelisted programs. Fails
/// exactly when `outstanding` exceeds `start_balance` or when more was
/// withdrawn than has vested — either way a corrupted record.
pub fn outstanding_vested(vesting: &VestingSchedule, current_ts: i64) -> (r: Result<
    u64,
    ArithmeticInvariantViolation,
>)
    requires
        vesting.wf(),
    ensures
        r is Ok <==> (vesting.outstanding <= vesting.start_balance && withdrawn(*vesting)
            <= vested(*vesting, current_ts as int)),
        r is Ok ==> r->Ok_0 == unwithdrawn_vested(*vesting, current_ts as int),
        r is Err ==> r->Err_0 == ArithmeticInvariantViolation,
{
    let tv: u64 = total_vested(vesting, current_ts);
    let w: u64 = match withdrawn_amount(vesting) {
        Ok(v) => v,
        Err(e) => {
            return Err(e);
        },
    };
    if w <= tv {
        Ok(tv - w)
    } else {
        Err(ArithmeticInvariantViolation)
    }
}

/// What the beneficiary may withdraw at `current_ts`: the lesser of the
/// vested-but-unwithdrawn amount and the physical vault balance, so a
/// beneficiary can draw neither more than has vested for them nor more
/// than the vault currently holds. Fails exactly when one of the record's
/// invariants is broken.
pub fn available_for_withdrawal(vesting: &VestingSchedule, current_ts: i64) -> (r: Result<
    u64,
    ArithmeticInvariantViolation,
>)
    requires
        vesting.wf(),
    ensures
        r is Ok <==> (vesting.outstanding <= vesting.start_balance && withdrawn(*vesting)
            <= vested(*vesting, current_ts as int) && vesting.whitelist_owned
            <= vesting.outstanding),
        r is Ok ==> r->Ok_0 == withdrawable(*vesting, current_ts as int),
        r is Ok ==> r->Ok_0 <= vault_balance(*vesting),
        r is Ok ==> r->Ok_0 <= unwithdrawn_vested(*vesting, current_ts as int),
        r is Err ==> r->Err_0 == ArithmeticInvariantViolation,
{
    let vested_unwithdrawn: u64 = match outstanding_vested(vesting, current_ts) {
        Ok(v) => v,
        Err(e) => {
            return Err(e);
        },
    };
    let in_vault: u64 = match balance(vesting) {
        Ok(v) => v,
        Err(e) => {
            return Err(e);
        },
    };
    if vested_unwithdrawn <= in_vault {
        Ok(vested_unwithdrawn)
    } else {
        Ok(in_vault)
    }
}

} // verus!
