//! Currency units and the storage deposit formula.

use vstd::prelude::*;

verus! {

/// One thousandth of a cent, in base units.
pub const MILLICENTS: u128 = 1_000_000_000;

/// One cent, in base units.
pub const CENTS: u128 = 1_000 * MILLICENTS;

/// One dollar, in base units.
pub const DOLLARS: u128 = 100 * CENTS;

/// The deposit owed for `items` storage items holding `bytes` bytes, as a
/// mathematical integer: fifteen cents per item and six cents per byte.
pub open spec fn deposit_spec(items: int, bytes: int) -> int {
    items * 15 * 1_000_000_000_000 + bytes * 6 * 1_000_000_000_000
}

/// Computes the storage deposit for `items` items and `bytes` bytes.
///
/// The result never overflows: both arguments are below 2^32, which bounds
/// the sum far below the range of `u128`.
pub fn deposit(items: u32, bytes: u32) -> (amount: u128)
    ensures
        amount == deposit_spec(items as int, bytes as int),
        amount == items as int * 15 * CENTS as int + bytes as int * 6 * CENTS as int,
{
    items as u128 * 15 * CENTS + (bytes as u128) * 6 * CENTS
}

} // verus!
