//! The integer part of choosing an enemy kind for a place: the hash of the
//! place's cell.
use vstd::prelude::*;

verus! {

/// The hash of a cell: its column and row, each multiplied with wrap-around
/// by a large prime, combined by exclusive or.
pub open spec fn cell_hash_spec(x: i32, y: i32) -> i32 {
    x.wrapping_mul(73856093) ^ y.wrapping_mul(19349663)
}

/// The hash of a cell of the prevalence grid.
pub fn cell_hash(x: i32, y: i32) -> (r: i32)
    ensures
        r == cell_hash_spec(x, y),
{
    x.wrapping_mul(73856093) ^ y.wrapping_mul(19349663)
}

/// The size of the hash of a cell, which picks the enemy kind among the
/// kinds weighted by prevalence.
pub fn cell_hash_magnitude(x: i32, y: i32) -> (r: u32)
    requires
        cell_hash_spec(x, y) != i32::MIN,
    ensures
        r as int == (if cell_hash_spec(x, y) < 0 { -cell_hash_spec(x, y) } else { cell_hash_spec(x, y) as int }),
{
    let h = cell_hash(x, y);
    if h < 0 {
        (-h) as u32
    } else {
        h as u32
    }
}

} // verus!
