use primitive_types::U256;
use vstd::prelude::*;

verus! {

/// 2^64, the weight of one limb.
pub open spec fn word() -> nat {
    0x1_0000_0000_0000_0000
}

/// 2^256: every balance lies below it (`lemma_balance_fits`).
pub open spec fn limit() -> nat {
    word() * word() * word() * word()
}

/// Whether a value can be held by a `Balance`.
pub open spec fn fits(v: nat) -> bool {
    v < limit()
}

/// Ten to the power `k`.
pub open spec fn pow10(k: nat) -> nat
    decreases k,
{
    if k == 0 {
        1
    } else {
        10 * pow10((k - 1) as nat)
    }
}

/// An unsigned 256-bit quantity, held as four little-endian 64-bit limbs.
#[derive(Clone, Copy, Debug, PartialEq, Eq)]
pub struct Balance {
    pub limbs: [u64; 4],
}

impl View for Balance {
    type V = nat;

    open spec fn view(&self) -> nat {
        self.limbs@[0] as nat + self.limbs@[1] as nat * word() + self.limbs@[2] as nat * word()
            * word() + self.limbs@[3] as nat * word() * word() * word()
    }
}

/// Every balance can be held in 256 bits.
pub proof fn lemma_balance_fits(b: Balance)
    ensures
        fits(b@),
{
    let w = word();
    let l0 = b.limbs@[0] as nat;
    let l1 = b.limbs@[1] as nat;
    let l2 = b.limbs@[2] as nat;
    let l3 = b.limbs@[3] as nat;
    assert(l0 + l1 * w + l2 * w * w + l3 * w * w * w <= w * w * w * w - 1) by (nonlinear_arith)
        requires
            w > 0,
            l0 <= w - 1,
            l1 <= w - 1,
            l2 <= w - 1,
            l3 <= w - 1,
    {
        assert(l1 * w <= (w - 1) * w);
        assert(l2 * w * w <= (w - 1) * w * w);
        assert(l3 * w * w * w <= (w - 1) * w * w * w);
    }
}

/// Relies on `U256::checked_add`: `None` exactly when the sum overflows.
#[verifier::external_body]
fn add_checked(a: Balance, b: Balance) -> (r: Option<Balance>)
    ensures
        r is Some <==> fits(a@ + b@),
        r is Some ==> r->Some_0@ == a@ + b@,
{
    match U256(a.limbs).checked_add(U256(b.limbs)) {
        Some(v) => Some(Balance { limbs: v.0 }),
        None => None,
    }
}

/// Relies on `U256::checked_sub`: `None` exactly when the difference is negative.
#[verifier::external_body]
fn sub_checked(a: Balance, b: Balance) -> (r: Option<Balance>)
    ensures
        r is Some <==> b@ <= a@,
        r is Some ==> r->Some_0@ == a@ - b@,
{
    match U256(a.limbs).checked_sub(U256(b.limbs)) {
        Some(v) => Some(Balance { limbs: v.0 }),
        None => None,
    }
}

/// Relies on `U256::checked_mul`: `None` exactly when the product overflows.
#[verifier::external_body]
fn mul_checked(a: Balance, b: Balance) -> (r: Option<Balance>)
    ensures
        r is Some <==> fits(a@ * b@),
        r is Some ==> r->Some_0@ == a@ * b@,
{
    match U256(a.limbs).checked_mul(U256(b.limbs)) {
        Some(v) => Some(Balance { limbs: v.0 }),
        None => None,
    }
}

/// Relies on `U256::checked_div`: `None` exactly when the divisor is zero,
/// else the quotient rounded down.
#[verifier::external_body]
fn div_checked(a: Balance, b: Balance) -> (r: Option<Balance>)
    ensures
        r is Some <==> b@ != 0,
        r is Some ==> r->Some_0@ == a@ / b@,
{
    match U256(a.limbs).checked_div(U256(b.limbs)) {
        Some(v) => Some(Balance { limbs: v.0 }),
        None => None,
    }
}

/// Relies on the `Ord` of `U256`, which compares the limbs from the most
/// significant one down.
#[verifier::external_body]
fn less_than(a: Balance, b: Balance) -> (r: bool)
    ensures
        r == (a@ < b@),
{
    U256(a.limbs) < U256(b.limbs)
}

impl Balance {
    /// The balance worth `v`.
    pub fn from_u64(v: u64) -> (r: Balance)
        ensures
            r@ == v as nat,
    {
        Balance { limbs: [v, 0, 0, 0] }
    }

    /// Whether this balance is zero.
    pub fn is_zero(&self) -> (r: bool)
        ensures
            r == (self@ == 0),
    {
        let l0 = self.limbs[0];
        let l1 = self.limbs[1];
        let l2 = self.limbs[2];
        let l3 = self.limbs[3];
        proof {
            let w = word();
            assert(l1 as nat * w >= 0 && l2 as nat * w * w >= 0 && l3 as nat * w * w * w >= 0)
                by (nonlinear_arith)
                requires
                    w > 0,
            ;
            assert(l1 != 0 ==> l1 as nat * w > 0) by (nonlinear_arith)
                requires
                    w > 0,
            ;
            assert(l2 != 0 ==> l2 as nat * w * w > 0) by (nonlinear_arith)
                requires
                    w > 0,
            ;
            assert(l3 != 0 ==> l3 as nat * w * w * w > 0) by (nonlinear_arith)
                requires
                    w > 0,
            ;
        }
        l0 == 0 && l1 == 0 && l2 == 0 && l3 == 0
    }

    /// The sum, or `None` where it reaches 2^256.
    pub fn checked_add(self, other: Balance) -> (r: Option<Balance>)
        ensures
            r is Some <==> fits(self@ + other@),
            r is Some ==> r->Some_0@ == self@ + other@,
    {
        add_checked(self, other)
    }

    /// The difference, or `None` where it is negative.
    pub fn checked_sub(self, other: Balance) -> (r: Option<Balance>)
        ensures
            r is Some <==> other@ <= self@,
            r is Some ==> r->Some_0@ == self@ - other@,
    {
        sub_checked(self, other)
    }

    /// The product, or `None` where it reaches 2^256.
    pub fn checked_mul(self, other: Balance) -> (r: Option<Balance>)
        ensures
            r is Some <==> fits(self@ * other@),
            r is Some ==> r->Some_0@ == self@ * other@,
    {
        mul_checked(self, other)
    }

    /// The quotient rounded down, or `None` where `other` is zero.
    pub fn checked_div(self, other: Balance) -> (r: Option<Balance>)
        ensures
            r is Some <==> other@ != 0,
            r is Some ==> r->Some_0@ == self@ / other@,
    {
        div_checked(self, other)
    }

    /// Whether this balance is below `other`.
    pub fn lt(self, other: Balance) -> (r: bool)
        ensures
            r == (self@ < other@),
    {
        less_than(self, other)
    }
}

} // verus!
