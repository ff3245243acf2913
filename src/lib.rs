//! The numerical core of a two-token StableSwap pool: the invariant `D`
//! and the balance of one token that keeps the pool on the curve.

pub mod balance;
pub mod error;
pub mod exchanges;
pub mod invariant_d;
pub mod normalize;
