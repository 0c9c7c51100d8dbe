//! The frame: what is to be painted for a given state of the board.
//!
//! A frame lists the four cell squares in row-major order and, on top of
//! them, the piece image at its cell. Painting it onto a surface is the
//! host's work.

use vstd::prelude::*;
use crate::geometry::{cell_size_for, spec_cell_size, BOARD_SPAN};
use crate::image_manager::{ImageManager, PixelBuffer, PixelView};

verus! {

/// Side of a cell, in pixels, that the board asks for before it is laid out.
pub const DEFAULT_PIECE_SIZE: u32 = 200;

/// The colours a cell can be filled with.
#[derive(Clone, Copy, Debug, PartialEq, Eq, Structural)]
pub enum CellColor {
    /// Light cell of the checkerboard.
    NavajoWhite,
    /// Dark cell of the checkerboard.
    Peru,
    /// The cell a drag started from.
    Red,
    /// The cell a drag hovers over.
    Green,
}

impl CellColor {
    /// Red, green, blue and opacity of the colour, in hundredths.
    pub open spec fn spec_rgba_percent(self) -> (u8, u8, u8, u8) {
        match self {
            CellColor::NavajoWhite => (100, 96, 86, 100),
            CellColor::Peru => (80, 52, 25, 100),
            CellColor::Red => (100, 0, 0, 45),
            CellColor::Green => (0, 100, 0, 45),
        }
    }

    /// Red, green, blue and opacity of the colour, in hundredths.
    pub fn rgba_percent(&self) -> (channels: (u8, u8, u8, u8))
        ensures
            channels == self.spec_rgba_percent(),
    {
        match self {
            CellColor::NavajoWhite => (100, 96, 86, 100),
            CellColor::Peru => (80, 52, 25, 100),
            CellColor::Red => (100, 0, 0, 45),
            CellColor::Green => (0, 100, 0, 45),
        }
    }
}

/// A square to fill: its top left corner, its side and its colour.
#[derive(Clone, Copy, Debug, PartialEq, Eq, Structural)]
pub struct CellFill {
    pub x: u64,
    pub y: u64,
    pub size: u32,
    pub color: CellColor,
}

/// The piece image and the top left corner to paint it at.
#[derive(Debug, PartialEq, Eq)]
pub struct PieceBlit {
    pub x: u64,
    pub y: u64,
    pub image: PixelBuffer,
}

/// A piece placement as a mathematical value.
pub struct PieceBlitView {
    pub x: u64,
    pub y: u64,
    pub image: PixelView,
}

impl View for PieceBlit {
    type V = PieceBlitView;

    open spec fn view(&self) -> PieceBlitView {
        PieceBlitView { x: self.x, y: self.y, image: self.image@ }
    }
}

/// Everything to paint, in painting order: first the cells, then the piece.
#[derive(Debug, PartialEq, Eq)]
pub struct Frame {
    pub fills: Vec<CellFill>,
    pub piece: Option<PieceBlit>,
}

/// A frame as a mathematical value.
#[verifier::ext_equal]
pub struct FrameView {
    pub fills: Seq<CellFill>,
    pub piece: Option<PieceBlitView>,
}

impl View for Frame {
    type V = FrameView;

    open spec fn view(&self) -> FrameView {
        FrameView {
            fills: self.fills@,
            piece: match self.piece {
                Some(blit) => Some(blit@),
                None => None,
            },
        }
    }
}

/// Colour of the cell `(row, col)`: the checkerboard colour, light where
/// `row + col` is even, unless the cell is where a drag started, and the
/// hover colour before either if the drag hovers over the cell.
pub open spec fn spec_cell_color(
    row: u8,
    col: u8,
    dnd_start_location: Option<(u8, u8)>,
    dnd_end_location: Option<(u8, u8)>,
) -> CellColor {
    if dnd_end_location == Some((row, col)) {
        CellColor::Green
    } else if dnd_start_location == Some((row, col)) {
        CellColor::Red
    } else if (row + col) % 2 == 0 {
        CellColor::NavajoWhite
    } else {
        CellColor::Peru
    }
}

/// The square of the cell `(row, col)` for cells of side `cell_size`.
pub open spec fn spec_cell_fill(
    row: u8,
    col: u8,
    cell_size: u32,
    dnd_start_location: Option<(u8, u8)>,
    dnd_end_location: Option<(u8, u8)>,
) -> CellFill {
    CellFill {
        x: (col * cell_size) as u64,
        y: (row * cell_size) as u64,
        size: cell_size,
        color: spec_cell_color(row, col, dnd_start_location, dnd_end_location),
    }
}

/// The squares of all cells, row by row.
pub open spec fn spec_cell_fills(
    cell_size: u32,
    dnd_start_location: Option<(u8, u8)>,
    dnd_end_location: Option<(u8, u8)>,
) -> Seq<CellFill> {
    Seq::new(
        (BOARD_SPAN * BOARD_SPAN) as nat,
        |i: int|
            spec_cell_fill(
                (i / BOARD_SPAN as int) as u8,
                (i % BOARD_SPAN as int) as u8,
                cell_size,
                dnd_start_location,
                dnd_end_location,
            ),
    )
}

/// Where the piece image goes for a piece on `piece_location`: the top left
/// corner of that cell.
pub open spec fn spec_piece_blit(image: PixelView, piece_location: (u8, u8), cell_size: u32)
    -> PieceBlitView {
    PieceBlitView {
        x: (cell_size * piece_location.1) as u64,
        y: (cell_size * piece_location.0) as u64,
        image,
    }
}

/// The frame for an area of `width` by `height` pixels. The side of a cell
/// comes from the area alone, so that the board fills the smaller dimension.
/// The piece is part of the frame only where a location is given for it.
pub open spec fn spec_frame(
    width: int,
    height: int,
    image: PixelView,
    piece_location: Option<(u8, u8)>,
    dnd_start_location: Option<(u8, u8)>,
    dnd_end_location: Option<(u8, u8)>,
) -> FrameView {
    let cell_size = spec_cell_size(width, height) as u32;
    FrameView {
        fills: spec_cell_fills(cell_size, dnd_start_location, dnd_end_location),
        piece: match piece_location {
            Some(location) => Some(spec_piece_blit(image, location, cell_size)),
            None => None,
        },
    }
}

/// Requested width and height of the board before it is laid out: two cells
/// of the default size each way.
pub fn default_size_request() -> (request: (i32, i32))
    ensures
        request.0 == BOARD_SPAN * DEFAULT_PIECE_SIZE,
        request.1 == BOARD_SPAN * DEFAULT_PIECE_SIZE,
{
    let side: i32 = (BOARD_SPAN as i32) * (DEFAULT_PIECE_SIZE as i32);
    (side, side)
}

/// Picks the colour of the cell `(row, col)`.
pub fn cell_color(
    row: u8,
    col: u8,
    dnd_start_location: Option<(u8, u8)>,
    dnd_end_location: Option<(u8, u8)>,
) -> (color: CellColor)
    ensures
        color == spec_cell_color(row, col, dnd_start_location, dnd_end_location),
{
    let mut background_color = if (row as u16 + col as u16) % 2 == 0 {
        CellColor::NavajoWhite
    } else {
        CellColor::Peru
    };
    if let Some(start) = dnd_start_location {
        if start.0 == row && start.1 == col {
            background_color = CellColor::Red;
        }
    }
    if let Some(end) = dnd_end_location {
        if end.0 == row && end.1 == col {
            background_color = CellColor::Green;
        }
    }
    background_color
}

/// Describes one square to fill.
pub fn draw_single_cell(x: u64, y: u64, size: u32, color: CellColor) -> (fill: CellFill)
    ensures
        fill == (CellFill { x, y, size, color }),
{
    CellFill { x, y, size, color }
}

/// Describes the squares of all cells, row by row.
pub fn draw_cells(
    cell_size: u32,
    dnd_start_location: Option<(u8, u8)>,
    dnd_end_location: Option<(u8, u8)>,
) -> (fills: Vec<CellFill>)
    ensures
        fills@ == spec_cell_fills(cell_size, dnd_start_location, dnd_end_location),
{
    let mut fills: Vec<CellFill> = Vec::new();
    let mut row: u8 = 0;
    while row < BOARD_SPAN
        invariant
            row <= BOARD_SPAN,
            fills@.len() == row * BOARD_SPAN,
            forall|i: int|
                0 <= i < fills@.len() ==> fills@[i] == spec_cell_fills(
                    cell_size,
                    dnd_start_location,
                    dnd_end_location,
                )[i],
        decreases BOARD_SPAN - row,
    {
        let mut col: u8 = 0;
        while col < BOARD_SPAN
            invariant
                row < BOARD_SPAN,
                col <= BOARD_SPAN,
                fills@.len() == row * BOARD_SPAN + col,
                forall|i: int|
                    0 <= i < fills@.len() ==> fills@[i] == spec_cell_fills(
                        cell_size,
                        dnd_start_location,
                        dnd_end_location,
                    )[i],
            decreases BOARD_SPAN - col,
        {
            assert(col * cell_size <= 0xffff_ffff && row * cell_size <= 0xffff_ffff)
                by (nonlinear_arith)
                requires
                    col <= 1,
                    row <= 1,
                    cell_size <= 0xffff_ffff,
            ;
            let color = cell_color(row, col, dnd_start_location, dnd_end_location);
            let fill = draw_single_cell(
                col as u64 * cell_size as u64,
                row as u64 * cell_size as u64,
                cell_size,
                color,
            );
            fills.push(fill);
            col = col + 1;
        }
        row = row + 1;
    }
    fills
}

/// Describes the piece image painted at the cell `piece_location`.
pub fn draw_piece(image_manager: &ImageManager, piece_location: (u8, u8), cell_size: u32) -> (blit:
    PieceBlit)
    ensures
        blit@ == spec_piece_blit(image_manager@.image, piece_location, cell_size),
{
    assert(cell_size * piece_location.1 <= 0xffff_ffff * 0xff && cell_size * piece_location.0
        <= 0xffff_ffff * 0xff) by (nonlinear_arith)
        requires
            cell_size <= 0xffff_ffff,
            piece_location.0 <= 0xff,
            piece_location.1 <= 0xff,
    ;
    PieceBlit {
        x: cell_size as u64 * piece_location.1 as u64,
        y: cell_size as u64 * piece_location.0 as u64,
        image: image_manager.get_image_clone(),
    }
}

/// Describes the whole frame for an area of `width` by `height` pixels: the
/// cells with the drag highlights, then the piece where a location is given.
pub fn draw_content(
    width: i32,
    height: i32,
    image_manager: &ImageManager,
    piece_location: Option<(u8, u8)>,
    dnd_start_location: Option<(u8, u8)>,
    dnd_end_location: Option<(u8, u8)>,
) -> (frame: Frame)
    ensures
        frame@ == spec_frame(
            width as int,
            height as int,
            image_manager@.image,
            piece_location,
            dnd_start_location,
            dnd_end_location,
        ),
{
    let cell_size = cell_size_for(width, height);
    let fills = draw_cells(cell_size, dnd_start_location, dnd_end_location);
    let piece = match piece_location {
        Some(location) => Some(draw_piece(image_manager, location, cell_size)),
        None => None,
    };
    Frame { fills, piece }
}

} // verus!
