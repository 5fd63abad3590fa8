use vstd::prelude::*;

verus! {

/// The exact fee, in token base units, that a farm owner must transfer to
/// flip a farm from unpaid to allowed. No smaller or larger amount is
/// accepted.
pub const FARM_FEE: u64 = 5000;

/// The length in bytes of every ledger address handled by this crate.
pub const KEY_LEN: usize = 32;

} // verus!
