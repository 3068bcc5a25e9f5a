use vstd::prelude::*;

verus! {

/// Why an operation on the pool, its liquidity figures or an oracle price was rejected.
///
/// Every rejection happens before any state is written, so a caller that
/// receives one of these may resubmit with corrected arguments.
#[derive(Clone, Copy, Debug, PartialEq, Eq, Structural)]
pub enum ErrorCode {
    /// The first mint does not sort strictly before the second one.
    InvalidTokenMintOrder,
    /// The square-root price lies outside the supported range.
    SqrtPriceOutOfBounds,
    /// The pool already holds a price or an inception time.
    AccountAlreadyInitialized,
    /// The fee rate is above its cap.
    FeeRateMaxExceeded,
    /// The protocol's share of the fee is above its cap.
    ProtocolFeeRateMaxExceeded,
    /// A wall-clock time before the epoch cannot be stored.
    InvalidTimestampConversion,
    /// Adding a liquidity delta would exceed 128 bits.
    LiquidityOverflow,
    /// Removing a liquidity delta would go below zero.
    LiquidityUnderflow,
    /// The oracle has no sufficiently recent price.
    PythError,
}

/// Why a mutation of a compressed governance-metadata leaf was rejected.
#[derive(Clone, Copy, Debug, PartialEq, Eq, Structural)]
pub enum ParallelTreeError {
    /// The tree is private and the signer is neither its creator nor its delegate.
    TreeAuthorityIncorrect,
}

} // verus!
