use vstd::prelude::*;

verus! {

/// Every way a pool operation can fail. Each one aborts the whole invocation.
#[derive(Clone, Copy, Debug, PartialEq, Eq, Structural)]
pub enum AmmError {
    /// The pool's lock flag is set.
    PoolLocked,
    /// A zero input, or an operation whose input or output comes out as zero.
    InvalidAmount,
    /// A reserve or the share supply is empty, or a reserve cannot cover a payout.
    NoLiquidityInPool,
    /// The caller or a reserve holds too little of the asset to be moved.
    InsufficientBalance,
    /// The computed output is below the caller's floor.
    SlippageExceeded,
    /// An amount does not fit in 64 bits.
    Overflow,
    /// The reserves or the fee handed to the curve are malformed.
    InvalidCurveState,
}

} // verus!
