use vstd::prelude::*;

verus! {

/// Errors that the pool's instructions report.
#[derive(Debug, Clone, Copy, PartialEq, Eq, Structural)]
pub enum AmmError {
    /// The pool is locked by its authority.
    PoolLocked,
    /// A requested amount is zero.
    InvalidAmount,
    /// The proportional amounts of a deposit overflow or cannot be computed.
    LiquidityLessThanMinimum,
    /// A deposit would take more than the depositor allowed.
    CurveError,
    /// The curve refused the swap (slippage limit or arithmetic).
    SlippageExceeded,
    /// The treasury's share of the fee exceeds the amount deposited.
    Underflow,
}

} // verus!
