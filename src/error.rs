use vstd::prelude::*;

verus! {

/// Why a solver refused its inputs or could not finish its computation.
#[derive(Clone, Copy, Debug, PartialEq, Eq, Structural)]
pub enum SolverError {
    /// The amplification coefficient is zero.
    ZeroAmplifier,
    /// The optional arguments do not match the selected mode.
    ModeMismatch,
    /// A token index is not below the number of tokens.
    IndexOutOfRange,
    /// The swap names the same token on both sides.
    SameToken,
    /// A balance that the solver divides by is zero.
    ZeroBalance,
    /// An intermediate value left the range of 256-bit unsigned integers,
    /// or a divisor computed during the iteration was zero.
    Overflow,
}

} // verus!
