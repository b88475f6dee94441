//! Grid coordinates and the integer keys under which cells are stored.
//!
//! A cell is a pair of `i32` coordinates.  Hash collections are keyed by a
//! single `u64` that packs the pair; the packing is a bijection between the
//! representable cells and the `u64` values.

use vstd::prelude::*;

verus! {

/// A cell of the mathematical grid.
pub type Point = (int, int);

/// Two to the power 31: the distance from `i32::MIN` to zero.
pub open spec fn half_span() -> int {
    0x8000_0000
}

/// Two to the power 32: the number of values of one coordinate.
pub open spec fn span() -> int {
    0x1_0000_0000
}

/// Whether both coordinates of `c` fit in an `i32`.
pub open spec fn in_range(c: Point) -> bool {
    &&& i32::MIN <= c.0 <= i32::MAX
    &&& i32::MIN <= c.1 <= i32::MAX
}

/// The mathematical cell that a pair of machine coordinates denotes.
pub open spec fn point(c: (i32, i32)) -> Point {
    (c.0 as int, c.1 as int)
}

/// The key of a cell.
pub open spec fn key_of(c: Point) -> int {
    (c.0 + half_span()) * span() + (c.1 + half_span())
}

/// The cell of a key.
pub open spec fn cell_of(k: int) -> Point {
    (k / span() - half_span(), k % span() - half_span())
}

/// Packing a representable cell gives a `u64`, and unpacking gives the cell back.
pub proof fn lemma_key_of_cell(c: Point)
    requires
        in_range(c),
    ensures
        0 <= key_of(c) <= u64::MAX,
        cell_of(key_of(c)) == c,
{
}

/// Unpacking a `u64` gives a representable cell, and packing gives the key back.
pub proof fn lemma_cell_of_key(k: int)
    requires
        0 <= k <= u64::MAX,
    ensures
        in_range(cell_of(k)),
        key_of(cell_of(k)) == k,
{
}

/// Distinct representable cells have distinct keys.
pub proof fn lemma_key_injective(a: Point, b: Point)
    requires
        in_range(a),
        in_range(b),
        key_of(a) == key_of(b),
    ensures
        a == b,
{
    lemma_key_of_cell(a);
    lemma_key_of_cell(b);
}

/// Packs a cell into its key.
pub fn cell_key(x: i32, y: i32) -> (k: u64)
    ensures
        k as int == key_of((x as int, y as int)),
{
    let ux: u64 = (x as i64 + 0x8000_0000) as u64;
    let uy: u64 = (y as i64 + 0x8000_0000) as u64;
    ux * 0x1_0000_0000 + uy
}

/// Unpacks a key into its cell.
pub fn key_cell(k: u64) -> (c: (i32, i32))
    ensures
        point(c) == cell_of(k as int),
{
    let x: i64 = (k / 0x1_0000_0000) as i64 - 0x8000_0000;
    let y: i64 = (k % 0x1_0000_0000) as i64 - 0x8000_0000;
    (x as i32, y as i32)
}

} // verus!
