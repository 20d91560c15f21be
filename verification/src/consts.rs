//! The constants of the fee model.

use vstd::prelude::*;

verus! {

/// The fee of the first submission to any tournament, in lamports.
pub const BASE_FEE: u64 = 10_000_000;

/// What the fee multiplier is divided by: it counts tenths of a percent.
pub const FEE_SCALE: u64 = 1000;

/// The fee kind under which every submission costs the base fee.
pub const FEE_TYPE_FLAT: u8 = 0;

/// The fee kind under which each submission costs the multiplier's fraction
/// of the base fee more than the one before.
pub const FEE_TYPE_LINEAR: u8 = 1;

/// The fee kind under which each submission costs the multiplier's fraction
/// of the previous fee more than the one before.
pub const FEE_TYPE_COMPOUND: u8 = 2;

/// The largest fee: the growth kinds stop here instead of wrapping.
pub const MAX_FEE: u64 = 0xffff_ffff_ffff_ffff;

} // verus!
