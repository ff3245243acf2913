use crate::balance::{fits, pow10, Balance};
use vstd::prelude::*;

verus! {

/// The largest token precision, in decimal places, that a pool expects; the
/// usual reference precision of the solvers.
pub const MAX_TOKEN_PRECISION: u8 = 18;

/// Powers of ten grow with the exponent.
proof fn lemma_pow10_monotone(a: nat, b: nat)
    requires
        a <= b,
    ensures
        pow10(a) <= pow10(b),
    decreases b - a,
{
    if a < b {
        lemma_pow10_monotone(a, (b - 1) as nat);
        assert(pow10(b) == 10 * pow10((b - 1) as nat));
    }
}

/// The factor `10^(reference_precision - token_precision)` that brings a
/// balance with `token_precision` decimal places to `reference_precision`
/// places, or `None` where it does not fit in 256 bits.
pub fn magnitude_multiplier(token_precision: u8, reference_precision: u8) -> (r: Option<Balance>)
    requires
        token_precision <= reference_precision,
    ensures
        r is Some <==> fits(pow10((reference_precision - token_precision) as nat)),
        r is Some ==> r->Some_0@ == pow10((reference_precision - token_precision) as nat),
{
    let e: u8 = reference_precision - token_precision;
    let ten = Balance::from_u64(10);
    let mut m = Balance::from_u64(1);
    let mut k: u8 = 0;
    while k < e
        invariant
            k <= e,
            e == reference_precision - token_precision,
            ten@ == 10,
            m@ == pow10(k as nat),
        decreases e - k,
    {
        match m.checked_mul(ten) {
            Some(v) => {
                m = v;
            },
            None => {
                proof {
                    assert(pow10((k + 1) as nat) == 10 * pow10(k as nat));
                    lemma_pow10_monotone((k + 1) as nat, e as nat);
                }
                return None;
            },
        }
        k = k + 1;
    }
    Some(m)
}

/// A raw balance brought to the common precision: `raw * multiplier`. The
/// caller bounds its supplies so that the product fits.
pub fn normalize(raw: Balance, multiplier: Balance) -> (r: Balance)
    requires
        fits(raw@ * multiplier@),
    ensures
        r@ == raw@ * multiplier@,
{
    raw.checked_mul(multiplier).unwrap()
}

} // verus!
