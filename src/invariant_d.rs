use crate::balance::{fits, Balance};
use crate::error::SolverError;
use vstd::arithmetic::div_mod::{lemma_div_is_ordered_by_denominator, lemma_div_non_zero};
use vstd::prelude::*;

verus! {

/// The number of refinement steps after which the invariant solver accepts
/// its last estimate.
pub const MAX_D_ITERATIONS: usize = 15;

/// Whether two successive estimates are within one unit of each other.
pub open spec fn close(a: nat, b: nat) -> bool {
    a <= b + 1 && b <= a + 1
}

/// The product term `D_P` for estimate `d`: `d` folded with `d / (2 x + 1)`
/// over both balances, each division rounded down.
pub open spec fn product_term(x0: nat, x1: nat, d: nat) -> nat {
    (d * d / (2 * x0 + 1)) * d / (2 * x1 + 1)
}

/// One Newton step of the invariant, from estimate `d`, where `an` is the
/// amplifier times the number of tokens and `s` the sum of the balances.
/// `None` where an intermediate value does not fit in 256 bits or the
/// divisor is zero.
pub open spec fn d_step(x0: nat, x1: nat, an: nat, s: nat, d: nat) -> Option<nat> {
    let p1 = d * d / (2 * x0 + 1);
    let dp = product_term(x0, x1, d);
    let num = (an * s + 2 * dp) * d;
    let den = (an - 1) as nat * d + 3 * dp;
    if fits(2 * x0 + 1) && fits(2 * x1 + 1) && fits(d * d) && fits(p1 * d) && fits(an * s)
        && fits(2 * dp) && fits(an * s + 2 * dp) && fits(num) && fits((an - 1) as nat * d)
        && fits(3 * dp) && fits(den) && den != 0 {
        Some(num / den)
    } else {
        None
    }
}

/// The estimate after at most `fuel` steps from `d`: the first one within a
/// unit of its predecessor, else the last one.
pub open spec fn d_iterate(x0: nat, x1: nat, an: nat, s: nat, d: nat, fuel: nat) -> Option<nat>
    decreases fuel,
{
    if fuel == 0 {
        Some(d)
    } else {
        match d_step(x0, x1, an, s, d) {
            None => None,
            Some(next) => if close(d, next) {
                Some(next)
            } else {
                d_iterate(x0, x1, an, s, next, (fuel - 1) as nat)
            },
        }
    }
}

/// The invariant `D` of balances `x0`, `x1` under amplifier `a`: zero for an
/// empty pool, else the iteration from the sum of the balances.
pub open spec fn invariant_of(x0: nat, x1: nat, a: nat) -> Option<nat> {
    let s = x0 + x1;
    if !fits(s) {
        None
    } else if s == 0 {
        Some(0)
    } else {
        d_iterate(x0, x1, 2 * a, s, s, MAX_D_ITERATIONS as nat)
    }
}

/// From a positive estimate, with positive balances and an amplifier of at
/// least one, a step that succeeds gives a positive estimate.
proof fn lemma_step_positive(x0: nat, x1: nat, an: nat, s: nat, d: nat)
    requires
        d >= 1,
        s >= 1,
        an >= 2,
        d_step(x0, x1, an, s, d) is Some,
    ensures
        d_step(x0, x1, an, s, d)->Some_0 >= 1,
{
    let q0 = 2 * x0 + 1;
    let q1 = 2 * x1 + 1;
    let p1 = d * d / q0;
    let dp = product_term(x0, x1, d);
    lemma_div_is_ordered_by_denominator((d * d) as int, 1, q0 as int);
    assert(p1 <= d * d);
    lemma_div_is_ordered_by_denominator((p1 * d) as int, 1, q1 as int);
    assert(dp <= p1 * d);
    assert(p1 * d <= d * d * d) by (nonlinear_arith)
        requires
            p1 <= d * d,
    ;
    let num = (an * s + 2 * dp) * d;
    let den = (an - 1) as nat * d + 3 * dp;
    assert(num >= den) by (nonlinear_arith)
        requires
            num == (an * s + 2 * dp) * d,
            den == (an - 1) as nat * d + 3 * dp,
            dp <= d * d * d,
            d >= 1,
            s >= 1,
            an >= 2,
    {
        if d == 1 {
            assert(dp <= 1);
        } else {
            assert(dp * (2 * d - 3) >= 0);
            assert(d * (an * s - an + 1) >= 1);
        }
    }
    lemma_div_non_zero(num as int, den as int);
}

/// From a positive estimate, the iteration yields a positive estimate or
/// fails.
proof fn lemma_iterate_positive(x0: nat, x1: nat, an: nat, s: nat, d: nat, fuel: nat)
    requires
        d >= 1,
        s >= 1,
        an >= 2,
    ensures
        d_iterate(x0, x1, an, s, d, fuel) is Some ==> d_iterate(x0, x1, an, s, d, fuel)->Some_0
            >= 1,
    decreases fuel,
{
    if fuel > 0 {
        if let Some(next) = d_step(x0, x1, an, s, d) {
            lemma_step_positive(x0, x1, an, s, d);
            lemma_iterate_positive(x0, x1, an, s, next, (fuel - 1) as nat);
        }
    }
}

/// The invariant is zero exactly when every balance is zero (for a positive
/// amplifier).
pub proof fn lemma_invariant_zero_iff_empty(x0: nat, x1: nat, a: nat)
    requires
        a > 0,
    ensures
        invariant_of(x0, x1, a) == Some(0nat) <==> (x0 == 0 && x1 == 0),
{
    if x0 + x1 > 0 {
        lemma_iterate_positive(x0, x1, 2 * a, x0 + x1, x0 + x1, MAX_D_ITERATIONS as nat);
    }
}

/// Whether two balances are within one unit of each other.
pub(crate) fn within_one(a: Balance, b: Balance) -> (r: bool)
    ensures
        r == close(a@, b@),
{
    let gap = if a.lt(b) {
        b.checked_sub(a).unwrap()
    } else {
        a.checked_sub(b).unwrap()
    };
    !Balance::from_u64(1).lt(gap)
}

/// One step of the invariant iteration on balances.
fn next_d(x0: Balance, x1: Balance, an: Balance, s: Balance, d: Balance) -> (r: Option<Balance>)
    requires
        an@ >= 2,
    ensures
        match d_step(x0@, x1@, an@, s@, d@) {
            Some(v) => r is Some && r->Some_0@ == v,
            None => r is None,
        },
{
    let one = Balance::from_u64(1);
    let two = Balance::from_u64(2);
    let three = Balance::from_u64(3);
    let q0 = x0.checked_mul(two)?.checked_add(one)?;
    let q1 = x1.checked_mul(two)?.checked_add(one)?;
    let p1 = d.checked_mul(d)?.checked_div(q0)?;
    let dp = p1.checked_mul(d)?.checked_div(q1)?;
    let num = an.checked_mul(s)?.checked_add(dp.checked_mul(two)?)?.checked_mul(d)?;
    let den = an.checked_sub(one)?.checked_mul(d)?.checked_add(three.checked_mul(dp)?)?;
    num.checked_div(den)
}

/// The StableSwap invariant `D` of two balances of one precision under
/// amplifier `amplifier`.
///
/// The Newton iteration starts from the sum of the balances and stops at the
/// first estimate within one unit of the previous one; after
/// `MAX_D_ITERATIONS` steps the last estimate is returned, converged or not.
///
/// The product term rounds down after each balance, so swapping the two
/// balances may change the result by a few units: up to about 120 on balances
/// below 10^24, and the tests hold it to 1000 on sample inputs. Equal results
/// for both orders are not promised, and no general bound is proved.
pub fn calculate(values: [Balance; 2], amplifier: u64) -> (r: Result<Balance, SolverError>)
    ensures
        amplifier == 0 ==> r == Err::<Balance, SolverError>(SolverError::ZeroAmplifier),
        amplifier > 0 ==> match invariant_of(values@[0]@, values@[1]@, amplifier as nat) {
            Some(v) => r is Ok && r->Ok_0@ == v,
            None => r == Err::<Balance, SolverError>(SolverError::Overflow),
        },
        amplifier > 0 && r is Ok ==> (r->Ok_0@ == 0 <==> values@[0]@ == 0 && values@[1]@ == 0),
{
    proof {
        if amplifier > 0 {
            lemma_invariant_zero_iff_empty(values@[0]@, values@[1]@, amplifier as nat);
        }
    }
    if amplifier == 0 {
        return Err(SolverError::ZeroAmplifier);
    }
    let x0 = values[0];
    let x1 = values[1];
    let s = match x0.checked_add(x1) {
        Some(v) => v,
        None => return Err(SolverError::Overflow),
    };
    if s.is_zero() {
        return Ok(s);
    }
    let an = Balance::from_u64(amplifier).checked_mul(Balance::from_u64(2)).unwrap();
    let ghost total = invariant_of(x0@, x1@, amplifier as nat);
    let mut d = s;
    let mut k: usize = 0;
    while k < MAX_D_ITERATIONS
        invariant
            k <= MAX_D_ITERATIONS,
            an@ == 2 * amplifier,
            amplifier > 0,
            x0 == values@[0],
            x1 == values@[1],
            total == invariant_of(x0@, x1@, amplifier as nat),
            total == Some(0nat) <==> (x0@ == 0 && x1@ == 0),
            s@ == x0@ + x1@,
            s@ > 0,
            fits(s@),
            total == d_iterate(x0@, x1@, an@, s@, d@, (MAX_D_ITERATIONS - k) as nat),
        decreases MAX_D_ITERATIONS - k,
    {
        let next = match next_d(x0, x1, an, s, d) {
            Some(v) => v,
            None => return Err(SolverError::Overflow),
        };
        proof {
            let fuel = (MAX_D_ITERATIONS - k) as nat;
            assert(total == match d_step(x0@, x1@, an@, s@, d@) {
                None => None,
                Some(nx) => if close(d@, nx) {
                    Some(nx)
                } else {
                    d_iterate(x0@, x1@, an@, s@, nx, (fuel - 1) as nat)
                },
            });
        }
        if within_one(d, next) {
            return Ok(next);
        }
        d = next;
        k = k + 1;
    }
    Ok(d)
}

} // verus!
