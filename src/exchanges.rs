use crate::balance::{fits, Balance};
use crate::error::SolverError;
use crate::invariant_d::{close, within_one};
use vstd::prelude::*;

verus! {

/// The number of refinement steps after which the output solver accepts its
/// last estimate.
pub const MAX_Y_ITERATIONS: usize = 255;

/// One step `y' = (y^2 + c) / (2 y + b - D)` of the output solver. `None` where
/// an intermediate value does not fit in 256 bits, the subtraction goes below
/// zero or the divisor is zero.
pub open spec fn y_step(c: nat, b: nat, d: nat, y: nat) -> Option<nat> {
    let t = 2 * y + b;
    if fits(y * y) && fits(y * y + c) && fits(2 * y) && fits(t) && d <= t && t - d != 0 {
        Some((y * y + c) / (t - d) as nat)
    } else {
        None
    }
}

/// The estimate after at most `fuel` steps from `y`: the first estimate that
/// the following step moves by at most one unit (that estimate itself, not the
/// step's result), else the last one.
pub open spec fn y_iterate(c: nat, b: nat, d: nat, y: nat, fuel: nat) -> Option<nat>
    decreases fuel,
{
    if fuel == 0 {
        Some(y)
    } else {
        match y_step(c, b, d, y) {
            None => None,
            Some(next) => if close(y, next) {
                Some(y)
            } else {
                y_iterate(c, b, d, next, (fuel - 1) as nat)
            },
        }
    }
}

/// The balance of the solved token that keeps invariant `d`, where `p` is the
/// balance of the one other token that the solver folds in and `an` the
/// amplifier times the number of tokens.
pub open spec fn y_of(p: nat, an: nat, d: nat) -> Option<nat> {
    let c0 = d * d / (2 * p);
    let c = c0 * d / (2 * an);
    let b = p + d / an;
    if fits(d * d) && fits(2 * p) && fits(c0 * d) && fits(2 * an) && fits(b) && p != 0 && an
        != 0 {
        y_iterate(c, b, d, d, MAX_Y_ITERATIONS as nat)
    } else {
        None
    }
}

/// The value of an optional balance.
pub open spec fn opt_view(o: Option<Balance>) -> Option<nat> {
    match o {
        Some(v) => Some(v@),
        None => None,
    }
}

/// The balance that the solver folds in: the new balance of token `x` in a
/// swap, or the balance of the token other than `x` in a withdrawal.
pub open spec fn folded(x0: nat, x1: nat, x: usize, new_x: Option<nat>, withdrawal: bool) -> nat {
    if withdrawal {
        if x == 0 {
            x1
        } else {
            x0
        }
    } else {
        new_x->Some_0
    }
}

/// The first of the caller's contract violations, if any.
pub open spec fn input_error(
    x0: nat,
    x1: nat,
    amplifier: nat,
    x: usize,
    y: Option<usize>,
    new_x: Option<nat>,
    withdrawal: bool,
) -> Option<SolverError> {
    if amplifier == 0 {
        Some(SolverError::ZeroAmplifier)
    } else if withdrawal != (y is None) || withdrawal != (new_x is None) {
        Some(SolverError::ModeMismatch)
    } else if x >= 2 || (y is Some && y->Some_0 >= 2) {
        Some(SolverError::IndexOutOfRange)
    } else if y is Some && y->Some_0 == x {
        Some(SolverError::SameToken)
    } else if folded(x0, x1, x, new_x, withdrawal) == 0 {
        Some(SolverError::ZeroBalance)
    } else {
        None
    }
}

/// The iteration of the output solver on balances.
fn solve_from(p: Balance, an: Balance, d: Balance) -> (r: Option<Balance>)
    requires
        p@ != 0,
        an@ != 0,
    ensures
        match y_of(p@, an@, d@) {
            Some(v) => r is Some && r->Some_0@ == v,
            None => r is None,
        },
{
    let two = Balance::from_u64(2);
    let c0 = d.checked_mul(d)?.checked_div(p.checked_mul(two)?)?;
    let c = c0.checked_mul(d)?.checked_div(an.checked_mul(two)?)?;
    let b = p.checked_add(d.checked_div(an)?)?;
    let ghost total = y_of(p@, an@, d@);
    let mut y = d;
    let mut k: usize = 0;
    while k < MAX_Y_ITERATIONS
        invariant
            k <= MAX_Y_ITERATIONS,
            two@ == 2,
            total == y_of(p@, an@, d@),
            total == y_iterate(c@, b@, d@, y@, (MAX_Y_ITERATIONS - k) as nat),
        decreases MAX_Y_ITERATIONS - k,
    {
        proof {
            let fuel = (MAX_Y_ITERATIONS - k) as nat;
            assert(total == match y_step(c@, b@, d@, y@) {
                None => None,
                Some(nx) => if close(y@, nx) {
                    Some(y@)
                } else {
                    y_iterate(c@, b@, d@, nx, (fuel - 1) as nat)
                },
            });
        }
        let sq = y.checked_mul(y)?;
        let num = sq.checked_add(c)?;
        let den = y.checked_mul(two)?.checked_add(b)?.checked_sub(d)?;
        let next = num.checked_div(den)?;
        if within_one(y, next) {
            return Some(y);
        }
        y = next;
        k = k + 1;
    }
    Some(y)
}

/// The new balance of one token that keeps a two-token pool on invariant `d`.
///
/// Swap mode (`is_get_y_d` false, `token_y_idx` and `after_x` given): token
/// `token_x_idx` takes balance `after_x`; the result is the balance of token
/// `token_y_idx`. Withdrawal mode (`is_get_y_d` true, neither given): `d` is
/// a reduced invariant; the result is the balance of token `token_x_idx`
/// while the other balance stays as it is.
///
/// The iteration starts from `d`. Once a step `y -> y'` moves by at most one
/// unit the solver stops and returns `y`, the estimate that the step confirmed,
/// not `y'` (on balances `[10^18, 10^18]`, amplifier 100, new balance
/// `1.05 * 10^18` that is 950024800946586013, while `y'` is one unit lower).
/// After `MAX_Y_ITERATIONS` steps it returns the last estimate, converged or
/// not.
pub fn get_y(
    balances: [Balance; 2],
    amplifier: u64,
    d: Balance,
    token_x_idx: usize,
    token_y_idx: Option<usize>,
    after_x: Option<Balance>,
    is_get_y_d: bool,
) -> (r: Result<Balance, SolverError>)
    ensures
        match input_error(
            balances@[0]@,
            balances@[1]@,
            amplifier as nat,
            token_x_idx,
            token_y_idx,
            opt_view(after_x),
            is_get_y_d,
        ) {
            Some(e) => r == Err::<Balance, SolverError>(e),
            None => match y_of(
                folded(
                    balances@[0]@,
                    balances@[1]@,
                    token_x_idx,
                    opt_view(after_x),
                    is_get_y_d,
                ),
                2 * amplifier as nat,
                d@,
            ) {
                Some(v) => r is Ok && r->Ok_0@ == v,
                None => r == Err::<Balance, SolverError>(SolverError::Overflow),
            },
        },
{
    if amplifier == 0 {
        return Err(SolverError::ZeroAmplifier);
    }
    if is_get_y_d != token_y_idx.is_none() || is_get_y_d != after_x.is_none() {
        return Err(SolverError::ModeMismatch);
    }
    let y_out_of_range = match token_y_idx {
        Some(j) => j >= 2,
        None => false,
    };
    if token_x_idx >= 2 || y_out_of_range {
        return Err(SolverError::IndexOutOfRange);
    }
    if token_y_idx == Some(token_x_idx) {
        return Err(SolverError::SameToken);
    }
    let p = match after_x {
        Some(v) if !is_get_y_d => v,
        _ => balances[1 - token_x_idx],
    };
    if p.is_zero() {
        return Err(SolverError::ZeroBalance);
    }
    let an = Balance::from_u64(amplifier).checked_mul(Balance::from_u64(2)).unwrap();
    match solve_from(p, an, d) {
        Some(v) => Ok(v),
        None => Err(SolverError::Overflow),
    }
}

} // verus!
