//! Toroidal movement on a square grid.
//!
//! A `width x width` grid is addressed by flat indices in `[0, width * width)`;
//! the row of a cell is `cell / width` and its column `cell % width`.  Moving
//! off an edge re-enters the grid on the opposite edge of the same row (for
//! horizontal moves) or of the same column (for vertical moves).

use vstd::prelude::*;

verus! {

use vstd::arithmetic::div_mod::lemma_fundamental_div_mod;
use vstd::arithmetic::div_mod::lemma_fundamental_div_mod_converse;
use vstd::arithmetic::div_mod::lemma_mod_division_less_than_divisor;
use vstd::arithmetic::div_mod::lemma_multiply_divide_lt;
use vstd::arithmetic::div_mod::lemma_div_pos_is_pos;
use vstd::arithmetic::mul::lemma_mul_is_commutative;
use vstd::arithmetic::mul::group_mul_is_commutative_and_distributive;
use vstd::arithmetic::mul::lemma_mul_inequality;
use vstd::arithmetic::mul::lemma_mul_nonnegative;

/// A heading of the snake on the grid.
#[derive(PartialEq, Eq)]
pub enum Direction {
    Up,
    Right,
    Down,
    Left,
}

/// Row of a flat cell index on a grid of the given width.
pub open spec fn row_of(width: int, cell: int) -> int {
    cell / width
}

/// Column of a flat cell index on a grid of the given width.
pub open spec fn col_of(width: int, cell: int) -> int {
    cell % width
}

/// The cell reached from `head` by one move in `dir` on a toroidal
/// `width x width` grid.  A horizontal move that would leave the row wraps
/// to the opposite end of the same row; a vertical move that would leave
/// the grid wraps to the same column of the opposite edge.
pub open spec fn next_cell(width: int, head: int, dir: Direction) -> int {
    let r = row_of(width, head);
    let c = col_of(width, head);
    match dir {
        Direction::Right => if c == width - 1 {
            r * width
        } else {
            head + 1
        },
        Direction::Left => if c == 0 {
            r * width + (width - 1)
        } else {
            head - 1
        },
        Direction::Up => if r == 0 {
            (width - 1) * width + c
        } else {
            head - width
        },
        Direction::Down => if r == width - 1 {
            c
        } else {
            head + width
        },
    }
}

/// A cell of the grid splits into its row and column: `cell == row * width + col`,
/// with both coordinates in `[0, width)`.
pub proof fn lemma_cell_coords(width: int, cell: int)
    requires
        1 <= width,
        0 <= cell < width * width,
    ensures
        cell == row_of(width, cell) * width + col_of(width, cell),
        0 <= col_of(width, cell) < width,
        0 <= row_of(width, cell) < width,
{
    lemma_fundamental_div_mod(cell, width);
    lemma_mul_is_commutative(width, cell / width);
    lemma_mod_division_less_than_divisor(cell, width);
    lemma_div_pos_is_pos(cell, width);
    lemma_mul_is_commutative(width, width);
    lemma_multiply_divide_lt(cell, width, width);
}

/// The converse: a cell written as `r * width + c` with both coordinates in
/// `[0, width)` lies on the grid and has row `r` and column `c`.
pub proof fn lemma_coords_cell(width: int, r: int, c: int)
    requires
        1 <= width,
        0 <= r < width,
        0 <= c < width,
    ensures
        0 <= r * width + c < width * width,
        row_of(width, r * width + c) == r,
        col_of(width, r * width + c) == c,
{
    broadcast use group_mul_is_commutative_and_distributive;

    lemma_mul_nonnegative(r, width);
    lemma_mul_inequality(r, width - 1, width);
    assert((width - 1) * width == width * width - width);
    lemma_fundamental_div_mod_converse(r * width + c, width, r, c);
}

/// One toroidal move stays on the grid, a horizontal move keeps the row,
/// and a vertical move keeps the column.
pub proof fn lemma_next_cell_on_grid(width: int, head: int, dir: Direction)
    requires
        1 <= width,
        0 <= head < width * width,
    ensures
        0 <= next_cell(width, head, dir) < width * width,
        dir == Direction::Right || dir == Direction::Left ==> row_of(
            width,
            next_cell(width, head, dir),
        ) == row_of(width, head),
        dir == Direction::Up || dir == Direction::Down ==> col_of(
            width,
            next_cell(width, head, dir),
        ) == col_of(width, head),
{
    broadcast use group_mul_is_commutative_and_distributive;

    lemma_cell_coords(width, head);
    let r: int = row_of(width, head);
    let c: int = col_of(width, head);
    match dir {
        Direction::Right => {
            if c == width - 1 {
                lemma_coords_cell(width, r, 0);
            } else {
                lemma_coords_cell(width, r, c + 1);
            }
        },
        Direction::Left => {
            if c == 0 {
                lemma_coords_cell(width, r, width - 1);
            } else {
                lemma_coords_cell(width, r, c - 1);
            }
        },
        Direction::Up => {
            if r == 0 {
                lemma_coords_cell(width, width - 1, c);
            } else {
                assert((r - 1) * width == r * width - width);
                lemma_coords_cell(width, r - 1, c);
            }
        },
        Direction::Down => {
            if r == width - 1 {
                lemma_coords_cell(width, 0, c);
            } else {
                assert((r + 1) * width == r * width + width);
                lemma_coords_cell(width, r + 1, c);
            }
        },
    }
}

/// Horizontal round trip: one move Right followed by one move Left comes
/// back to the starting cell, and the other way around, wrap or no wrap.
pub proof fn lemma_horizontal_round_trip(width: int, head: int)
    requires
        1 <= width,
        0 <= head < width * width,
    ensures
        next_cell(width, next_cell(width, head, Direction::Right), Direction::Left) == head,
        next_cell(width, next_cell(width, head, Direction::Left), Direction::Right) == head,
{
    lemma_cell_coords(width, head);
    let r: int = row_of(width, head);
    let c: int = col_of(width, head);
    if c == width - 1 {
        lemma_coords_cell(width, r, 0);
    } else {
        lemma_coords_cell(width, r, c + 1);
    }
    if c == 0 {
        lemma_coords_cell(width, r, width - 1);
    } else {
        lemma_coords_cell(width, r, c - 1);
    }
}

/// Vertical round trip: one move Up followed by one move Down comes back
/// to the starting cell, and the other way around, wrap or no wrap.
pub proof fn lemma_vertical_round_trip(width: int, head: int)
    requires
        1 <= width,
        0 <= head < width * width,
    ensures
        next_cell(width, next_cell(width, head, Direction::Up), Direction::Down) == head,
        next_cell(width, next_cell(width, head, Direction::Down), Direction::Up) == head,
{
    broadcast use group_mul_is_commutative_and_distributive;

    lemma_cell_coords(width, head);
    let r: int = row_of(width, head);
    let c: int = col_of(width, head);
    if r == 0 {
        lemma_coords_cell(width, width - 1, c);
    } else {
        assert((r - 1) * width == r * width - width);
        lemma_coords_cell(width, r - 1, c);
    }
    if r == width - 1 {
        lemma_coords_cell(width, 0, c);
    } else {
        assert((r + 1) * width == r * width + width);
        lemma_coords_cell(width, r + 1, c);
    }
}

} // verus!
