use vstd::prelude::*;

verus! {

/// Fixed-point scale shared by the debt-ratio and pricing arithmetic: one
/// whole unit of the implicit decimal denominator.
pub const DECIMAL: u128 = 1_000_000_000_000;

/// Permissive ceiling used as the default `max_payout` of a freshly
/// registered bond and as the neutral adjustment target.
pub const MAX: u128 = u128::MAX;

} // verus!
