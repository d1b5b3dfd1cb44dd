//! Fixed parameters of the conversion engine.

use vstd::prelude::*;

verus! {

/// Largest amount any single operation may move, in base units.
pub const MAX_AMOUNT: u64 = 1_000_000_000;

/// Hard cap on the ingot supply, in base ingot units.
pub const MAX_INGOT_SUPPLY: u64 = 21_000_000;

/// Percentage of an unsmelted amount retained by the market as its fee.
pub const UNSMELT_FEE_PERCENTAGE: u8 = 5;

/// Default percentage chance that a smelt attempt succeeds.
pub const SMELTING_SUCCESS_RATE: u8 = 80;

/// Largest number of signers a multi-signature roster may hold.
pub const MAX_SIGNERS: usize = 10;

} // verus!
