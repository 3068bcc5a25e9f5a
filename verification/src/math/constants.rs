use vstd::prelude::*;

verus! {

/// Number of fractional bits in a Q64.64 fixed-point value.
pub const Q64_RESOLUTION: u32 = 64;

/// Largest fee rate a pool accepts, in hundredths of a basis point: 3%.
pub const MAX_FEE_RATE: u16 = 30_000;

/// Largest share of the fee the protocol may take, in basis points: 25%.
pub const MAX_PROTOCOL_FEE_RATE: u16 = 2_500;

} // verus!
