//! Well-known patterns, as lists of cells at an offset.

use crate::coords::{point, Point};
use crate::life::shifted;
use vstd::prelude::*;

verus! {

/// The glider: a spaceship of five cells in a three by three square.
pub open spec fn glider_shape() -> Seq<Point> {
    seq![(1, 0), (2, 1), (0, 2), (1, 2), (2, 2)]
}

/// The blinker: an upright bar of three cells.
pub open spec fn blinker_shape() -> Seq<Point> {
    seq![(1, 0), (1, 1), (1, 2)]
}

/// The block: a square of four cells.
pub open spec fn block_shape() -> Seq<Point> {
    seq![(0, 0), (0, 1), (1, 0), (1, 1)]
}

/// The Gosper glider gun: thirty-six cells in a box of thirty-six by nine.
pub open spec fn gosper_gun_shape() -> Seq<Point> {
    seq![
        (0, 4),
        (0, 5),
        (1, 4),
        (1, 5),
        (10, 4),
        (10, 5),
        (10, 6),
        (11, 3),
        (11, 7),
        (12, 2),
        (12, 8),
        (13, 2),
        (13, 8),
        (14, 5),
        (15, 3),
        (15, 7),
        (16, 4),
        (16, 5),
        (16, 6),
        (17, 5),
        (20, 2),
        (20, 3),
        (20, 4),
        (21, 2),
        (21, 3),
        (21, 4),
        (22, 1),
        (22, 5),
        (24, 0),
        (24, 1),
        (24, 5),
        (24, 6),
        (34, 2),
        (34, 3),
        (35, 2),
        (35, 3),
    ]
}

/// Whether `cells` lists the cells of `shape`, in order, each moved by
/// `(offset_x, offset_y)`.
pub open spec fn placed(cells: Seq<(i32, i32)>, shape: Seq<Point>, offset_x: int, offset_y: int) -> bool {
    &&& cells.len() == shape.len()
    &&& forall|i: int|
        0 <= i < shape.len() ==> point(#[trigger] cells[i]) == shifted(
            shape[i],
            offset_x,
            offset_y,
        )
}

/// The glider at the given offset.
pub fn generate_glider_pattern(offset_x: i32, offset_y: i32) -> (cells: Vec<(i32, i32)>)
    requires
        offset_x + 2 <= i32::MAX,
        offset_y + 2 <= i32::MAX,
    ensures
        placed(cells@, glider_shape(), offset_x as int, offset_y as int),
{
    vec![
        (1 + offset_x, 0 + offset_y),
        (2 + offset_x, 1 + offset_y),
        (0 + offset_x, 2 + offset_y),
        (1 + offset_x, 2 + offset_y),
        (2 + offset_x, 2 + offset_y),
    ]
}

/// The blinker at the given offset.
pub fn generate_blinker_pattern(offset_x: i32, offset_y: i32) -> (cells: Vec<(i32, i32)>)
    requires
        offset_x + 1 <= i32::MAX,
        offset_y + 2 <= i32::MAX,
    ensures
        placed(cells@, blinker_shape(), offset_x as int, offset_y as int),
{
    vec![(1 + offset_x, 0 + offset_y), (1 + offset_x, 1 + offset_y), (1 + offset_x, 2 + offset_y)]
}

/// The Gosper glider gun at the given offset.
pub fn generate_gosper_gun_pattern(offset_x: i32, offset_y: i32) -> (cells: Vec<(i32, i32)>)
    requires
        offset_x + 35 <= i32::MAX,
        offset_y + 8 <= i32::MAX,
    ensures
        placed(cells@, gosper_gun_shape(), offset_x as int, offset_y as int),
{
    vec![
        (0 + offset_x, 4 + offset_y),
        (0 + offset_x, 5 + offset_y),
        (1 + offset_x, 4 + offset_y),
        (1 + offset_x, 5 + offset_y),
        (10 + offset_x, 4 + offset_y),
        (10 + offset_x, 5 + offset_y),
        (10 + offset_x, 6 + offset_y),
        (11 + offset_x, 3 + offset_y),
        (11 + offset_x, 7 + offset_y),
        (12 + offset_x, 2 + offset_y),
        (12 + offset_x, 8 + offset_y),
        (13 + offset_x, 2 + offset_y),
        (13 + offset_x, 8 + offset_y),
        (14 + offset_x, 5 + offset_y),
        (15 + offset_x, 3 + offset_y),
        (15 + offset_x, 7 + offset_y),
        (16 + offset_x, 4 + offset_y),
        (16 + offset_x, 5 + offset_y),
        (16 + offset_x, 6 + offset_y),
        (17 + offset_x, 5 + offset_y),
        (20 + offset_x, 2 + offset_y),
        (20 + offset_x, 3 + offset_y),
        (20 + offset_x, 4 + offset_y),
        (21 + offset_x, 2 + offset_y),
        (21 + offset_x, 3 + offset_y),
        (21 + offset_x, 4 + offset_y),
        (22 + offset_x, 1 + offset_y),
        (22 + offset_x, 5 + offset_y),
        (24 + offset_x, 0 + offset_y),
        (24 + offset_x, 1 + offset_y),
        (24 + offset_x, 5 + offset_y),
        (24 + offset_x, 6 + offset_y),
        (34 + offset_x, 2 + offset_y),
        (34 + offset_x, 3 + offset_y),
        (35 + offset_x, 2 + offset_y),
        (35 + offset_x, 3 + offset_y),
    ]
}

/// The block at the given offset.
pub fn generate_block_pattern(offset_x: i32, offset_y: i32) -> (cells: Vec<(i32, i32)>)
    requires
        offset_x + 1 <= i32::MAX,
        offset_y + 1 <= i32::MAX,
    ensures
        placed(cells@, block_shape(), offset_x as int, offset_y as int),
{
    vec![
        (0 + offset_x, 0 + offset_y),
        (0 + offset_x, 1 + offset_y),
        (1 + offset_x, 0 + offset_y),
        (1 + offset_x, 1 + offset_y),
    ]
}

} // verus!
