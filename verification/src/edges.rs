//! The grid edge classifier: a pure function over grid dimensions and a
//! flattened row-major cell index that reports which of the grid's four
//! cardinal edges (left, right, top, bottom) that cell touches.

use vstd::arithmetic::div_mod::{
    lemma_div_pos_is_pos,
    lemma_fundamental_div_mod,
    lemma_fundamental_div_mod_converse,
    lemma_mod_pos_bound,
    lemma_multiply_divide_lt,
};
use vstd::arithmetic::mul::lemma_mul_is_commutative;
use vstd::prelude::*;

verus! {

/// Why a classification request was rejected: the grid dimensions themselves
/// are unusable, or the index names no cell of the grid.
#[derive(Clone, Copy, Debug, PartialEq, Eq, Structural)]
pub enum GridError {
    /// Width or height is non-positive: no cell exists at all.
    InvalidDimensions,
    /// The index lies outside `[0, width * height)`.
    IndexOutOfBounds,
}

/// The dimensions describe a real grid: both sides hold at least one cell.
pub open spec fn dims_valid(width: int, height: int) -> bool {
    width >= 1 && height >= 1
}

/// The index names a cell of the grid: it lies in `[0, width * height)`.
pub open spec fn index_valid(index: int, width: int, height: int) -> bool {
    0 <= index < width * height
}

/// Column of the cell named by `index` in row-major order.
pub open spec fn col_of(index: int, width: int) -> int {
    index % width
}

/// Row of the cell named by `index` in row-major order.
pub open spec fn row_of(index: int, width: int) -> int {
    index / width
}

/// The cell lies on the grid's left edge.
pub open spec fn on_left(index: int, width: int) -> bool {
    col_of(index, width) == 0
}

/// The cell lies on the grid's right edge.
pub open spec fn on_right(index: int, width: int) -> bool {
    col_of(index, width) == width - 1
}

/// The cell lies on the grid's top edge.
pub open spec fn on_top(index: int, width: int) -> bool {
    row_of(index, width) == 0
}

/// The cell lies on the grid's bottom edge.
pub open spec fn on_bottom(index: int, width: int, height: int) -> bool {
    row_of(index, width) == height - 1
}

/// The four edge flags of a cell, in the order
/// `(is_left, is_right, is_top, is_bottom)`.
pub open spec fn edge_flags(index: int, width: int, height: int) -> (bool, bool, bool, bool) {
    (
        on_left(index, width),
        on_right(index, width),
        on_top(index, width),
        on_bottom(index, width, height),
    )
}

/// Full specification of the classifier, validation included: non-positive
/// dimensions are rejected before any indexing math, then an index outside
/// the grid, and a valid cell is classified by its row and column.
pub open spec fn spec_check_edges(index: int, width: int, height: int) -> Result<
    (bool, bool, bool, bool),
    GridError,
> {
    if !dims_valid(width, height) {
        Err(GridError::InvalidDimensions)
    } else if !index_valid(index, width, height) {
        Err(GridError::IndexOutOfBounds)
    } else {
        Ok(edge_flags(index, width, height))
    }
}

/// Classifies the cell named by `index` in a `width` x `height` row-major
/// grid: which cardinal edges of the grid it lies on, as
/// `(is_left, is_right, is_top, is_bottom)`.
///
/// Invalid input is rejected rather than classified: non-positive dimensions
/// give `InvalidDimensions` (checked first), an index outside
/// `[0, width * height)` gives `IndexOutOfBounds`.
pub fn check_edges(index: i32, width: i32, height: i32) -> (r: Result<
    (bool, bool, bool, bool),
    GridError,
>)
    ensures
        r == spec_check_edges(index as int, width as int, height as int),
        !dims_valid(width as int, height as int) ==> r == Err::<(bool, bool, bool, bool), GridError>(
            GridError::InvalidDimensions,
        ),
        dims_valid(width as int, height as int) && !index_valid(
            index as int,
            width as int,
            height as int,
        ) ==> r == Err::<(bool, bool, bool, bool), GridError>(GridError::IndexOutOfBounds),
        dims_valid(width as int, height as int) && index_valid(
            index as int,
            width as int,
            height as int,
        ) ==> r == Ok::<(bool, bool, bool, bool), GridError>(edge_flags(
            index as int,
            width as int,
            height as int,
        )),
{
    if width <= 0 || height <= 0 {
        return Err(GridError::InvalidDimensions);
    }
    if index < 0 {
        return Err(GridError::IndexOutOfBounds);
    }
    proof {
        assert((width as int) * (height as int) <= 0x7fffffffi64 * 0x7fffffffi64)
            by (nonlinear_arith)
            requires
                1 <= width <= 0x7fffffffi64,
                1 <= height <= 0x7fffffffi64,
        ;
    }
    if index as i64 >= (width as i64) * (height as i64) {
        return Err(GridError::IndexOutOfBounds);
    }
    let i: u32 = index as u32;
    let w: u32 = width as u32;
    let h: u32 = height as u32;
    let col: u32 = i % w;
    let row: u32 = i / w;
    Ok((col == 0, col == w - 1, row == 0, row == h - 1))
}

/// The row and column of a valid cell lie inside the grid.
pub proof fn lemma_row_col_bounds(index: int, width: int, height: int)
    requires
        dims_valid(width, height),
        index_valid(index, width, height),
    ensures
        0 <= col_of(index, width) < width,
        0 <= row_of(index, width) < height,
{
    lemma_mod_pos_bound(index, width);
    lemma_div_pos_is_pos(index, width);
    lemma_multiply_divide_lt(index, width, height);
}

/// Law: left/right flags of a valid cell. A strictly interior column sets
/// neither flag; with more than one column the two flags are never both true,
/// and a side column sets exactly one; with a single column every cell sets
/// both.
pub proof fn lemma_left_right_flags(index: int, width: int, height: int)
    requires
        dims_valid(width, height),
        index_valid(index, width, height),
    ensures
        0 < col_of(index, width) < width - 1 ==> !on_left(index, width) && !on_right(index, width),
        width > 1 ==> !(on_left(index, width) && on_right(index, width)),
        width > 1 && (col_of(index, width) == 0 || col_of(index, width) == width - 1) ==> (on_left(
            index,
            width,
        ) != on_right(index, width)),
        width == 1 ==> on_left(index, width) && on_right(index, width),
{
    lemma_row_col_bounds(index, width, height);
}

/// Law: top/bottom flags of a valid cell follow the same pattern with respect
/// to the height. A strictly interior row sets neither flag; with more than
/// one row the two flags are never both true, and a boundary row sets exactly
/// one; with a single row every cell sets both.
pub proof fn lemma_top_bottom_flags(index: int, width: int, height: int)
    requires
        dims_valid(width, height),
        index_valid(index, width, height),
    ensures
        0 < row_of(index, width) < height - 1 ==> !on_top(index, width) && !on_bottom(
            index,
            width,
            height,
        ),
        height > 1 ==> !(on_top(index, width) && on_bottom(index, width, height)),
        height > 1 && (row_of(index, width) == 0 || row_of(index, width) == height - 1) ==> (on_top(
            index,
            width,
        ) != on_bottom(index, width, height)),
        height == 1 ==> on_top(index, width) && on_bottom(index, width, height),
{
    lemma_row_col_bounds(index, width, height);
}

/// Law: corner cells. In a grid with more than one column and more than one
/// row, each of the four corner indices sets exactly the two flags of its
/// corner and no others.
pub proof fn lemma_corners(width: int, height: int)
    requires
        width > 1,
        height > 1,
    ensures
        edge_flags(0, width, height) == (true, false, true, false),
        edge_flags(width - 1, width, height) == (false, true, true, false),
        edge_flags((height - 1) * width, width, height) == (true, false, false, true),
        edge_flags(width * height - 1, width, height) == (false, true, false, true),
{
    lemma_fundamental_div_mod_converse(0, width, 0, 0);
    lemma_fundamental_div_mod_converse(width - 1, width, 0, width - 1);
    lemma_fundamental_div_mod_converse((height - 1) * width, width, height - 1, 0);
    assert(width * height - 1 == (height - 1) * width + (width - 1)) by (nonlinear_arith);
    lemma_fundamental_div_mod_converse(width * height - 1, width, height - 1, width - 1);
}

/// Law: re-flattening. Deriving the row and column of a valid cell and
/// flattening them again (`row * width + col`) reproduces the index exactly,
/// so a re-derived cell classifies the same.
pub proof fn lemma_reflatten(index: int, width: int, height: int)
    requires
        dims_valid(width, height),
        index_valid(index, width, height),
    ensures
        row_of(index, width) * width + col_of(index, width) == index,
        edge_flags(row_of(index, width) * width + col_of(index, width), width, height)
            == edge_flags(index, width, height),
{
    lemma_fundamental_div_mod(index, width);
    lemma_mul_is_commutative(width, row_of(index, width));
}

/// Law: the documented alternative forms of the right and bottom tests agree
/// with the row/column definitions for every valid cell:
/// `(index + 1) % width == 0` tests the right edge and
/// `(index + width) / width == height` tests the bottom edge.
pub proof fn lemma_alternative_forms(index: int, width: int, height: int)
    requires
        dims_valid(width, height),
        index_valid(index, width, height),
    ensures
        on_right(index, width) <==> (index + 1) % width == 0,
        on_bottom(index, width, height) <==> (index + width) / width == height,
{
    lemma_row_col_bounds(index, width, height);
    lemma_fundamental_div_mod(index, width);
    let q = row_of(index, width);
    let c = col_of(index, width);
    if c == width - 1 {
        assert(index + 1 == (q + 1) * width + 0)
            by (nonlinear_arith)
            requires
                index == width * q + c,
                c == width - 1,
        ;
        lemma_fundamental_div_mod_converse(index + 1, width, q + 1, 0);
    } else {
        assert(index + 1 == q * width + (c + 1))
            by (nonlinear_arith)
            requires
                index == width * q + c,
        ;
        lemma_fundamental_div_mod_converse(index + 1, width, q, c + 1);
    }
    assert(index + width == (q + 1) * width + c)
        by (nonlinear_arith)
        requires
            index == width * q + c,
    ;
    lemma_fundamental_div_mod_converse(index + width, width, q + 1, c);
}

} // verus!
