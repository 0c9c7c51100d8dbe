//! Board geometry: the side of a cell in pixels and the cell under a pixel.
//!
//! A cell is a pair `(row, column)`; both are below `BOARD_SPAN`. Pixel
//! coordinates grow to the right and downwards from the top left corner of
//! the board.

use vstd::prelude::*;

verus! {

/// Number of cells along each side of the board.
pub const BOARD_SPAN: u8 = 2;

/// Whether `cell` is one of the cells of the board.
pub open spec fn valid_cell(cell: (u8, u8)) -> bool {
    cell.0 < BOARD_SPAN && cell.1 < BOARD_SPAN
}

/// Side of a cell, in pixels, of a board drawn into a `width` by `height`
/// area: half of the smaller dimension, rounded down, and zero for an area
/// with a dimension that is not positive.
pub open spec fn spec_cell_size(width: int, height: int) -> int {
    let smaller = if width <= height {
        width
    } else {
        height
    };
    if smaller <= 0 {
        0
    } else {
        smaller / 2
    }
}

/// Row or column under the pixel coordinate `pixel` for cells of side
/// `cell_size`: the quotient, rounded down, where that is on the board.
/// There is none for a negative coordinate, for one beyond the last cell and
/// while cells have no extent.
pub open spec fn spec_cell_index(pixel: int, cell_size: int) -> Option<u8> {
    if cell_size > 0 && 0 <= pixel && pixel / cell_size < BOARD_SPAN {
        Some((pixel / cell_size) as u8)
    } else {
        None
    }
}

/// Cell under the pixel `(x, y)`: the column comes from `x`, the row from
/// `y`, and there is a cell only where both are on the board.
pub open spec fn spec_cell_at(x: int, y: int, cell_size: int) -> Option<(u8, u8)> {
    match (spec_cell_index(y, cell_size), spec_cell_index(x, cell_size)) {
        (Some(row), Some(col)) => Some((row, col)),
        _ => None,
    }
}

/// Computes the side of a cell for an area of `width` by `height` pixels.
pub fn cell_size_for(width: i32, height: i32) -> (size: u32)
    ensures
        size == spec_cell_size(width as int, height as int),
{
    let smaller: i32 = if width <= height {
        width
    } else {
        height
    };
    if smaller <= 0 {
        0
    } else {
        (smaller / 2) as u32
    }
}

/// Finds the row or column under a pixel coordinate.
pub fn cell_index(pixel: i32, cell_size: u32) -> (index: Option<u8>)
    ensures
        index == spec_cell_index(pixel as int, cell_size as int),
{
    if cell_size == 0 || pixel < 0 {
        return None;
    }
    let quotient: u32 = (pixel as u32) / cell_size;
    if quotient < BOARD_SPAN as u32 {
        Some(quotient as u8)
    } else {
        None
    }
}

/// Finds the cell under the pixel `(x, y)`.
pub fn cell_at(x: i32, y: i32, cell_size: u32) -> (cell: Option<(u8, u8)>)
    ensures
        cell == spec_cell_at(x as int, y as int, cell_size as int),
        cell matches Some(c) ==> valid_cell(c),
{
    match (cell_index(y, cell_size), cell_index(x, cell_size)) {
        (Some(row), Some(col)) => Some((row, col)),
        _ => None,
    }
}

/// A cell that `spec_cell_at` yields is on the board, and the pixel lies
/// within that cell's square.
pub proof fn lemma_cell_at_encloses(x: int, y: int, cell_size: int)
    ensures
        spec_cell_at(x, y, cell_size) matches Some(cell) ==> {
            &&& valid_cell(cell)
            &&& cell.1 * cell_size <= x < (cell.1 + 1) * cell_size
            &&& cell.0 * cell_size <= y < (cell.0 + 1) * cell_size
        },
{
    if spec_cell_at(x, y, cell_size) is Some {
        lemma_quotient_bounds(x, cell_size);
        lemma_quotient_bounds(y, cell_size);
    }
}

/// The pixels that lie over a cell are those of the square of two cells each
/// way that starts at the origin; while cells have no extent there are none.
pub proof fn lemma_cell_at_covers_board(x: int, y: int, cell_size: int)
    ensures
        spec_cell_at(x, y, cell_size) is Some <==> (cell_size > 0 && 0 <= x < BOARD_SPAN
            * cell_size && 0 <= y < BOARD_SPAN * cell_size),
{
    if cell_size > 0 {
        lemma_quotient_below(x, cell_size);
        lemma_quotient_below(y, cell_size);
    }
}

/// Two cells of the computed side fit into the smaller dimension of the
/// area and leave less than two pixels of it over, whichever of the two
/// dimensions is the smaller.
pub proof fn lemma_board_fills_smaller_dimension(width: int, height: int)
    requires
        width > 0,
        height > 0,
    ensures
        spec_cell_size(width, height) == spec_cell_size(height, width),
        BOARD_SPAN * spec_cell_size(width, height) <= width,
        BOARD_SPAN * spec_cell_size(width, height) <= height,
        width < BOARD_SPAN * spec_cell_size(width, height) + BOARD_SPAN || height < BOARD_SPAN
            * spec_cell_size(width, height) + BOARD_SPAN,
{
}

proof fn lemma_quotient_bounds(pixel: int, cell_size: int)
    requires
        cell_size > 0,
        pixel >= 0,
    ensures
        (pixel / cell_size) * cell_size <= pixel < (pixel / cell_size + 1) * cell_size,
        pixel / cell_size >= 0,
{
    assert((pixel / cell_size) * cell_size <= pixel < (pixel / cell_size + 1) * cell_size
        && pixel / cell_size >= 0) by (nonlinear_arith)
        requires
            cell_size > 0,
            pixel >= 0,
    ;
}

proof fn lemma_quotient_below(pixel: int, cell_size: int)
    requires
        cell_size > 0,
    ensures
        (0 <= pixel && pixel / cell_size < 2) <==> 0 <= pixel < 2 * cell_size,
{
    assert((0 <= pixel && pixel / cell_size < 2) <==> 0 <= pixel < 2 * cell_size)
        by (nonlinear_arith)
        requires
            cell_size > 0,
    ;
}

} // verus!
