use primitive_types::U256;
use stableswap::balance::Balance;
use stableswap::error::SolverError;
use stableswap::exchanges::get_y;
use stableswap::invariant_d::calculate;
use stableswap::normalize::{magnitude_multiplier, normalize, MAX_TOKEN_PRECISION};

fn bal(v: U256) -> Balance {
    Balance { limbs: v.0 }
}

fn wide(b: Balance) -> U256 {
    U256(b.limbs)
}

fn pow10(k: u64) -> U256 {
    U256::from(10).pow(U256::from(k))
}

fn multiplier(precision: u8) -> Balance {
    magnitude_multiplier(precision, MAX_TOKEN_PRECISION).unwrap()
}

/// A swap of token 0 into token 1 between tokens of the given precisions:
/// balances and the new balance of token 0 are raw amounts, and so is the
/// result.
fn swap_raw(raw: [U256; 2], precisions: [u8; 2], amp: u64, after_x: U256) -> U256 {
    let m0 = multiplier(precisions[0]);
    let m1 = multiplier(precisions[1]);
    let balances = [normalize(bal(raw[0]), m0), normalize(bal(raw[1]), m1)];
    let d = calculate(balances, amp).unwrap();
    let new_y = get_y(balances, amp, d, 0, Some(1), Some(normalize(bal(after_x), m0)), false).unwrap();
    wide(new_y.checked_div(m1).unwrap())
}

fn swap_equal(balances: [U256; 2], amp: u64, after_x: U256) -> U256 {
    let balances = [bal(balances[0]), bal(balances[1])];
    let d = calculate(balances, amp).unwrap();
    wide(get_y(balances, amp, d, 0, Some(1), Some(bal(after_x)), false).unwrap())
}

#[test]
fn it_works() {
    assert_eq!(2 + 2, 4);
}

#[test]
fn ok_zero_values() {
    let values = [bal(U256::zero()); 2];
    let amplifier: u64 = 100;
    assert_eq!(wide(calculate(values, amplifier).unwrap()), U256::zero(), "Invalid invariant");
}

#[test]
fn ok_some_values() {
    let values = [bal(U256::from(1_000_000)); 2];
    let amplifier: u64 = 100;
    assert_eq!(wide(calculate(values, amplifier).unwrap()), U256::from(2_000_000), "Invalid invariant");
}

#[test]
fn ok_small_equal_values() {
    let values = [bal(U256::from(1000)); 2];
    assert_eq!(wide(calculate(values, 100).unwrap()), U256::from(2000));
}

#[test]
fn ok_some_values_amplified_swap() {
    let amplifier: u64 = 100;
    let direct = wide(calculate([bal(U256::from(1_000_000)), bal(pow10(18))], amplifier).unwrap());
    let reverse = wide(calculate([bal(pow10(18)), bal(U256::from(1_000_000))], amplifier).unwrap());
    assert!(
        direct > reverse && direct - reverse < pow10(18)
            || reverse >= direct && reverse - direct < pow10(18),
        "Invariant depends on the value order for some reason"
    );
}

#[test]
fn order_difference_is_small() {
    for amp in [1u64, 10, 100, 1000] {
        for (a, b) in [(1u64, 2u64), (5, 1_000_000_000), (1_000_000, 7_000_000_000)] {
            let direct = wide(calculate([bal(U256::from(a)), bal(U256::from(b))], amp).unwrap());
            let reverse = wide(calculate([bal(U256::from(b)), bal(U256::from(a))], amp).unwrap());
            let gap = if direct > reverse { direct - reverse } else { reverse - direct };
            assert!(gap <= U256::from(1000), "order changed the invariant by {}", gap);
        }
    }
    let a = U256::from(772_433_685_934u128);
    let b = U256::from(3_429_800_261_289_514_417_513u128);
    let direct = wide(calculate([bal(a), bal(b)], 50).unwrap());
    let reverse = wide(calculate([bal(b), bal(a)], 50).unwrap());
    let gap = if direct > reverse { direct - reverse } else { reverse - direct };
    assert_eq!(gap, U256::from(121));
}

#[test]
fn invariant_zero_only_for_empty_pool() {
    let one_sided = calculate([bal(U256::zero()), bal(U256::from(1))], 1).unwrap();
    assert_ne!(wide(one_sided), U256::zero());
    let other_side = calculate([bal(U256::from(1)), bal(U256::zero())], 100).unwrap();
    assert_ne!(wide(other_side), U256::zero());
}

#[test]
fn invariant_rejects_zero_amplifier() {
    let values = [bal(U256::from(10)); 2];
    assert_eq!(calculate(values, 0), Err(SolverError::ZeroAmplifier));
}

#[test]
fn invariant_overflow_is_reported() {
    let values = [bal(U256::MAX), bal(U256::from(1))];
    assert_eq!(calculate(values, 100), Err(SolverError::Overflow));
    let values = [bal(U256::from(1) << 200), bal(U256::from(1) << 200)];
    assert_eq!(calculate(values, 100), Err(SolverError::Overflow));
}

#[test]
fn ok_equal_precision() {
    let new_y = swap_equal([U256::from(1_000); 2], 100, U256::from(1_050));
    assert_eq!(new_y, U256::from(950), "The balance get_y withdrawal does not match the reference");
}

#[test]
fn settled_swap_returns_confirmed_estimate() {
    // the last step goes from 961 to 960: 961 is returned
    let new_y = swap_equal([U256::from(1_000); 2], 1, U256::from(1_040));
    assert_eq!(new_y, U256::from(961));
}

#[test]
fn ok_equal_precision_amplified() {
    let new_y = swap_equal([U256::from(1_000_000); 2], 100, U256::from(1_900_000));
    assert_eq!(new_y, U256::from(130_370), "The balance get_y withdrawal does not match the reference");
}

#[test]
fn ok_different_precision_lesser_bigger() {
    let new_y = swap_raw([U256::from(1_000_000), pow10(18)], [6, 18], 100, U256::from(1_050_000));
    assert_eq!(
        new_y,
        U256::from(950_024_800_946_586_013u64),
        "The balance get_y withdrawal does not match the reference"
    );
}

#[test]
fn ok_different_precision_lesser_bigger_amplified() {
    let new_y = swap_raw([U256::from(1_000_000), pow10(18)], [6, 18], 100, U256::from(1_950_000));
    assert_eq!(
        new_y,
        U256::from(94_351_900_636_131_207u64),
        "The balance get_y withdrawal does not match the reference"
    );
}

#[test]
fn ok_different_precision_bigger_lesser() {
    let new_y = swap_raw([pow10(18), U256::from(1_000_000)], [18, 6], 100, U256::from(1_050) * pow10(15));
    assert_eq!(new_y, U256::from(950_024), "The balance get_y withdrawal does not match the reference");
}

#[test]
fn ok_different_precision_bigger_lesser_amplified() {
    // 1.950 tokens of eighteen decimal places
    let new_y = swap_raw([pow10(18), pow10(6)], [18, 6], 100, U256::from(1_950) * pow10(15));
    assert_eq!(new_y, U256::from(94_351), "The balance get_y withdrawal does not match the reference");
}

#[test]
fn error_same_tokens() {
    let balances = [bal(U256::from(1000)); 2];
    let amp = 100;
    let d = calculate(balances, amp).unwrap();
    let r = get_y(balances, amp, d, 1, Some(1), Some(bal(U256::from(100))), false);
    assert_eq!(r, Err(SolverError::SameToken));
}

#[test]
fn get_y_contract_violations() {
    let balances = [bal(U256::from(1000)); 2];
    let d = bal(U256::from(2000));
    let x = Some(bal(U256::from(1050)));
    assert_eq!(get_y(balances, 0, d, 0, Some(1), x, false), Err(SolverError::ZeroAmplifier));
    assert_eq!(get_y(balances, 100, d, 0, None, x, false), Err(SolverError::ModeMismatch));
    assert_eq!(get_y(balances, 100, d, 0, Some(1), None, false), Err(SolverError::ModeMismatch));
    assert_eq!(get_y(balances, 100, d, 0, Some(1), x, true), Err(SolverError::ModeMismatch));
    assert_eq!(get_y(balances, 100, d, 2, Some(1), x, false), Err(SolverError::IndexOutOfRange));
    assert_eq!(get_y(balances, 100, d, 0, Some(2), x, false), Err(SolverError::IndexOutOfRange));
    assert_eq!(get_y(balances, 100, d, 2, None, None, true), Err(SolverError::IndexOutOfRange));
    let zero = Some(bal(U256::zero()));
    assert_eq!(get_y(balances, 100, d, 0, Some(1), zero, false), Err(SolverError::ZeroBalance));
    let empty_other = [bal(U256::from(1000)), bal(U256::zero())];
    assert_eq!(get_y(empty_other, 100, d, 0, None, None, true), Err(SolverError::ZeroBalance));
}

#[test]
fn get_y_overflow_is_reported() {
    let balances = [bal(U256::from(1000)); 2];
    let d = bal(U256::from(1) << 200);
    let r = get_y(balances, 100, d, 0, Some(1), Some(bal(U256::from(1050))), false);
    assert_eq!(r, Err(SolverError::Overflow));
}

#[test]
fn withdrawal_mode_at_full_invariant_keeps_balance() {
    let balances = [bal(U256::from(1_000_000)); 2];
    let d = calculate(balances, 100).unwrap();
    let y = wide(get_y(balances, 100, d, 0, None, None, true).unwrap());
    assert_eq!(y, U256::from(1_000_000));
}

#[test]
fn withdrawal_mode_reduced_invariant() {
    let balances = [bal(U256::from(1_000_000)); 2];
    let y = wide(get_y(balances, 100, bal(U256::from(1_900_000)), 0, None, None, true).unwrap());
    assert_eq!(y, U256::from(900_026));
}

#[test]
fn swap_round_trip_recovers_deposit() {
    let cases: [(u64, u128, u128, u128); 6] = [
        (1, 1_000_000, 1_000_000, 10_000),
        (10, 1_000_000_000_000_000_000, 2_000_000_000_000_000_000, 100_000_000_000_000_000),
        (100, 500_000_000_000_000_000_000, 100_000_000_000_000_000_000, 30_000_000_000_000_000_000),
        (100, 1000, 1000, 50),
        (1000, 1_000_000_000_000_000_000_000_000, 1_000_000_000_000_000_000_000_000, 1_000_000_000_000_000_000_000),
        (1000, 500_000_000_000_000_000_000, 100_000_000_000_000_000_000, 30_000_000_000_000_000_000),
    ];
    for (amp, x0, x1, dx) in cases {
        let balances = [bal(U256::from(x0)), bal(U256::from(x1))];
        let d = calculate(balances, amp).unwrap();
        let new_y = wide(get_y(balances, amp, d, 0, Some(1), Some(bal(U256::from(x0 + dx))), false).unwrap());
        let dy = U256::from(x1) - new_y;
        let back = wide(get_y(balances, amp, d, 1, Some(0), Some(bal(U256::from(x1) - dy)), false).unwrap());
        let dx_again = back - U256::from(x0);
        let gap = if dx_again > U256::from(dx) { dx_again - U256::from(dx) } else { U256::from(dx) - dx_again };
        assert!(gap <= U256::one(), "round trip missed by {}", gap);
    }
}

#[test]
fn magnitude_multiplier_values() {
    assert_eq!(wide(multiplier(6)), pow10(12));
    assert_eq!(wide(multiplier(18)), U256::one());
    assert_eq!(wide(magnitude_multiplier(0, 77).unwrap()), pow10(77));
    assert!(magnitude_multiplier(0, 78).is_none());
}

#[test]
fn normalize_scales_balance() {
    let r = normalize(bal(U256::from(1_050_000)), multiplier(6));
    assert_eq!(wide(r), U256::from(1_050_000) * pow10(12));
}

#[test]
fn balance_arithmetic() {
    let a = bal(U256::from(7) << 130);
    let b = bal(U256::from(3));
    assert_eq!(wide(a.checked_add(b).unwrap()), (U256::from(7) << 130) + U256::from(3));
    assert_eq!(wide(a.checked_sub(b).unwrap()), (U256::from(7) << 130) - U256::from(3));
    assert!(b.checked_sub(a).is_none());
    assert_eq!(wide(a.checked_mul(b).unwrap()), (U256::from(21) << 130));
    assert!(a.checked_mul(a).is_none());
    assert_eq!(wide(a.checked_div(b).unwrap()), (U256::from(7) << 130) / U256::from(3));
    assert!(a.checked_div(bal(U256::zero())).is_none());
    assert!(b.lt(a));
    assert!(!a.lt(b));
    assert!(bal(U256::zero()).is_zero());
    assert!(!a.is_zero());
    assert_eq!(wide(Balance::from_u64(42)), U256::from(42));
}

#[test]
fn invariant_returns_last_estimate_at_iteration_cap() {
    // far from balanced: fifteen steps do not settle, and the fifteenth
    // estimate is the result
    let values = [bal(U256::from(1)), bal(pow10(12))];
    assert_eq!(wide(calculate(values, 1).unwrap()), U256::from(2_284_141_936u64));
}
