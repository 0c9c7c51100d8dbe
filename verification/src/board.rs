//! The board: four cells of which one holds the piece, the side of a cell,
//! the markers of a drag in flight and the piece image cache, together with
//! the handlers for what the host reports (resize, drag start, hover, drop,
//! paint).
//!
//! `BoardView` is the board as a mathematical value. Every handler is pinned
//! to a transition of the view, so the protocol can be reasoned about without
//! a running host.

use vstd::prelude::*;
use crate::drawing::{draw_content, spec_frame, Frame, FrameView};
use crate::geometry::{cell_at, cell_size_for, spec_cell_at, spec_cell_size, valid_cell};
use crate::image_manager::{decoded_png, CacheError, ImageManager, ImageView, PixelBuffer, PixelView};
use crate::payload::{spec_payload_piece, TransferPayload};
use crate::protocol::{lemma_step_keeps_consistency, EventView};

verus! {

/// Content of the cell that holds the piece.
pub const PIECE: char = 'n';

/// Content of a cell that holds nothing.
pub const EMPTY: char = '\0';

/// The cells with the piece on `cell` and nothing anywhere else.
pub open spec fn cells_with_piece_on(cell: (u8, u8)) -> Map<(u8, u8), char> {
    Map::new(
        |c: (u8, u8)| valid_cell(c),
        |c: (u8, u8)|
            if c == cell {
                PIECE
            } else {
                EMPTY
            },
    )
}

/// The board as a mathematical value.
#[verifier::ext_equal]
pub struct BoardView {
    /// Content of each cell, by `(row, column)`.
    pub cells: Map<(u8, u8), char>,
    /// Side of a cell in pixels.
    pub cell_size: u32,
    /// The cell a drag in flight started from.
    pub drag_start: Option<(u8, u8)>,
    /// The cell a drag in flight hovers over.
    pub drag_target: Option<(u8, u8)>,
    /// The piece image cache.
    pub image: ImageView,
}

/// The drag icon: the piece image and the point of it to hold under the
/// pointer.
#[derive(Debug, PartialEq, Eq)]
pub struct DragIcon {
    pub image: PixelBuffer,
    pub hot_x: i32,
    pub hot_y: i32,
}

/// A drag icon as a mathematical value.
pub struct DragIconView {
    pub image: PixelView,
    pub hot_x: i32,
    pub hot_y: i32,
}

impl View for DragIcon {
    type V = DragIconView;

    open spec fn view(&self) -> DragIconView {
        DragIconView { image: self.image@, hot_x: self.hot_x, hot_y: self.hot_y }
    }
}

impl BoardView {
    /// The board at construction: the piece on the first cell, cells without
    /// extent and no drag in flight.
    pub open spec fn initial(image: ImageView) -> BoardView {
        BoardView {
            cells: cells_with_piece_on((0, 0)),
            cell_size: 0,
            drag_start: None,
            drag_target: None,
            image,
        }
    }

    /// Content of `cell`.
    pub open spec fn value_at(self, cell: (u8, u8)) -> char {
        self.cells[cell]
    }

    /// The board with `value` written to `cell`.
    pub open spec fn with_value(self, cell: (u8, u8), value: char) -> BoardView {
        BoardView { cells: self.cells.insert(cell, value), ..self }
    }

    /// Whether `cell` holds the piece.
    pub open spec fn occupied(self, cell: (u8, u8)) -> bool {
        self.cells[cell] == PIECE
    }

    /// The first cell, row by row, that holds the piece.
    pub open spec fn occupied_cell(self) -> Option<(u8, u8)> {
        if self.occupied((0, 0)) {
            Some((0u8, 0u8))
        } else if self.occupied((0, 1)) {
            Some((0u8, 1u8))
        } else if self.occupied((1, 0)) {
            Some((1u8, 0u8))
        } else if self.occupied((1, 1)) {
            Some((1u8, 1u8))
        } else {
            None
        }
    }

    /// The cell under the pixel `(x, y)` at the current cell size.
    pub open spec fn cell_at(self, x: int, y: int) -> Option<(u8, u8)> {
        spec_cell_at(x, y, self.cell_size as int)
    }

    /// The board with the drag markers cleared.
    pub open spec fn idle(self) -> BoardView {
        BoardView { drag_start: None, drag_target: None, ..self }
    }

    /// The board after the area it is drawn into became `width` by `height`.
    pub open spec fn resized(self, width: int, height: int) -> BoardView {
        BoardView { cell_size: spec_cell_size(width, height) as u32, ..self }
    }

    /// The board after an image decoded as `decoded` was offered for `size`.
    pub open spec fn with_image(self, size: u32, decoded: Option<(u32, u32, Seq<u8>)>)
        -> BoardView {
        BoardView { image: self.image.updated(size, decoded), ..self }
    }

    /// The cell a drag would start from for a pointer pressed at `(x, y)`:
    /// the cell under the pointer, provided it holds the piece.
    pub open spec fn drag_source_at(self, x: int, y: int) -> Option<(u8, u8)> {
        match self.cell_at(x, y) {
            Some(cell) => if self.occupied(cell) {
                Some(cell)
            } else {
                None
            },
            None => None,
        }
    }

    /// The board after a pointer was pressed at `(x, y)`: the drag start is
    /// recorded where there is a cell to start from; otherwise nothing
    /// changes.
    pub open spec fn prepared(self, x: int, y: int) -> BoardView {
        match self.drag_source_at(x, y) {
            Some(cell) => BoardView { drag_start: Some(cell), ..self },
            None => self,
        }
    }

    /// The board after the pointer of a drag moved to `(x, y)`: the hover
    /// marker follows the pointer while a drag is in flight.
    pub open spec fn hovered(self, x: int, y: int) -> BoardView {
        if self.drag_start is Some {
            BoardView { drag_target: self.cell_at(x, y), ..self }
        } else {
            self
        }
    }

    /// The cell that a drop at `(x, y)` moves the piece to: there is one
    /// while a drag is in flight, the pointer is over a cell other than the
    /// one the drag started from, and the payload names the piece.
    pub open spec fn move_destination(self, x: int, y: int, payload: Seq<char>) -> Option<(u8, u8)> {
        match (self.drag_start, self.cell_at(x, y), spec_payload_piece(payload)) {
            (Some(source), Some(destination), Some(_)) => if destination != source {
                Some(destination)
            } else {
                None
            },
            _ => None,
        }
    }

    /// The board after a drop at `(x, y)` with `payload`.
    ///
    /// Without a drag in flight nothing changes. Otherwise the drag ends and
    /// both markers are cleared. If the pointer is over a cell and the
    /// payload names the piece, the piece is written to that cell and, where
    /// that is another cell than the one the drag started from, the start
    /// cell is emptied. A pointer off the board or a payload that names
    /// nothing leaves the cells as they are.
    pub open spec fn dropped(self, x: int, y: int, payload: Seq<char>) -> BoardView {
        match self.drag_start {
            None => self,
            Some(source) => match (self.cell_at(x, y), spec_payload_piece(payload)) {
                (Some(destination), Some(piece)) => if destination == source {
                    self.with_value(source, piece).idle()
                } else {
                    self.with_value(destination, piece).with_value(source, EMPTY).idle()
                },
                _ => self.idle(),
            },
        }
    }

    /// The cell to paint the piece at: the occupied cell, and none while a
    /// drag is in flight, when the piece is shown at the pointer only.
    pub open spec fn visible_piece(self) -> Option<(u8, u8)> {
        if self.drag_start is None {
            self.occupied_cell()
        } else {
            None
        }
    }

    /// The frame of the board for an area of `width` by `height` pixels.
    pub open spec fn frame(self, width: int, height: int) -> FrameView {
        spec_frame(
            width,
            height,
            self.image.image,
            self.visible_piece(),
            self.drag_start,
            self.drag_target,
        )
    }

    /// The drag icon: the cached piece image, held at its centre, half a
    /// cell from its top left corner.
    pub open spec fn drag_icon(self) -> DragIconView {
        DragIconView {
            image: self.image.image,
            hot_x: (self.cell_size / 2) as i32,
            hot_y: (self.cell_size / 2) as i32,
        }
    }

    /// Every cell of the board has a content and nothing else has.
    pub open spec fn complete(self) -> bool {
        self.cells.dom() =~= Set::new(|c: (u8, u8)| valid_cell(c))
    }

    /// Exactly one cell holds the piece and the others are empty.
    pub open spec fn has_one_piece(self) -> bool {
        self.occupied_cell() matches Some(cell) && self.cells =~= cells_with_piece_on(cell)
    }

    /// What holds of the board between any two reports of the host: one cell
    /// holds the piece, a drag in flight started from that cell, and the
    /// hover marker is set only during a drag and only to a cell.
    pub open spec fn consistent(self) -> bool {
        &&& self.has_one_piece()
        &&& self.drag_start is Some ==> self.drag_start == self.occupied_cell()
        &&& self.drag_target matches Some(target) ==> valid_cell(target) && self.drag_start is Some
    }
}

/// The board with its piece, its drag markers and its piece image cache.
#[derive(Debug, PartialEq, Eq)]
pub struct Board {
    image_manager: ImageManager,
    cells_values: [[char; 2]; 2],
    cell_size: u32,
    start_pos: Option<(u8, u8)>,
    end_pos: Option<(u8, u8)>,
}

impl View for Board {
    type V = BoardView;

    closed spec fn view(&self) -> BoardView {
        BoardView {
            cells: Map::new(
                |c: (u8, u8)| valid_cell(c),
                |c: (u8, u8)| self.cells_values[c.0 as int][c.1 as int],
            ),
            cell_size: self.cell_size,
            drag_start: self.start_pos,
            drag_target: self.end_pos,
            image: self.image_manager@,
        }
    }
}

impl Clone for Board {
    /// A board in the same state, with a copy of the same image.
    fn clone(&self) -> (copy: Board)
        ensures
            copy@ == self@,
    {
        proof {
            use_type_invariant(self);
        }
        Board {
            image_manager: self.image_manager.clone(),
            cells_values: self.cells_values,
            cell_size: self.cell_size,
            start_pos: self.start_pos,
            end_pos: self.end_pos,
        }
    }
}

impl Board {
    #[verifier::type_invariant]
    spec fn markers_on_board(self) -> bool {
        &&& self.start_pos matches Some(cell) ==> valid_cell(cell)
        &&& self.end_pos matches Some(cell) ==> valid_cell(cell)
    }

    /// Creates the board around its piece image cache, with the piece on the
    /// first cell.
    pub fn new(image_manager: ImageManager) -> (board: Board)
        ensures
            board@ == BoardView::initial(image_manager@),
            board@.consistent(),
    {
        Board {
            image_manager,
            cells_values: [[PIECE, EMPTY], [EMPTY, EMPTY]],
            cell_size: 0,
            start_pos: None,
            end_pos: None,
        }
    }

    /// Content of the cell in column `col` of row `row`.
    pub fn get_value_at(&self, col: u8, row: u8) -> (value: char)
        requires
            valid_cell((row, col)),
        ensures
            value == self@.value_at((row, col)),
    {
        self.cells_values[row as usize][col as usize]
    }

    /// Writes `value` to the cell in row `row`, column `col`. Nothing else
    /// changes, and nothing is asked of `value`: keeping one piece on the
    /// board is up to the caller.
    pub fn set_value_at(&mut self, row: u8, col: u8, value: char)
        requires
            valid_cell((row, col)),
        ensures
            final(self)@ == old(self)@.with_value((row, col), value),
    {
        proof {
            use_type_invariant(&*self);
        }
        self.cells_values[row as usize][col as usize] = value;
    }

    /// The first cell, row by row, that holds the piece.
    pub fn occupied_cell(&self) -> (cell: Option<(u8, u8)>)
        ensures
            cell == self@.occupied_cell(),
            cell matches Some(c) ==> valid_cell(c) && self@.occupied(c),
            self@.complete(),
    {
        if self.cells_values[0][0] == PIECE {
            Some((0, 0))
        } else if self.cells_values[0][1] == PIECE {
            Some((0, 1))
        } else if self.cells_values[1][0] == PIECE {
            Some((1, 0))
        } else if self.cells_values[1][1] == PIECE {
            Some((1, 1))
        } else {
            None
        }
    }

    /// Sets the side of a cell.
    pub fn update_cell_size(&mut self, size: u32)
        ensures
            final(self)@ == (BoardView { cell_size: size, ..old(self)@ }),
    {
        proof {
            use_type_invariant(&*self);
        }
        self.cell_size = size;
    }

    /// The side of a cell.
    pub fn get_cell_size(&self) -> (size: u32)
        ensures
            size == self@.cell_size,
    {
        self.cell_size
    }

    /// Marks `cell` as the cell a drag started from.
    pub fn begin_drag(&mut self, cell: (u8, u8))
        requires
            valid_cell(cell),
        ensures
            final(self)@ == (BoardView { drag_start: Some(cell), ..old(self)@ }),
    {
        proof {
            use_type_invariant(&*self);
        }
        self.start_pos = Some(cell);
    }

    /// Ends the drag: clears the start marker and, with it, the hover
    /// marker.
    pub fn end_drag(&mut self)
        ensures
            final(self)@ == old(self)@.idle(),
    {
        proof {
            use_type_invariant(&*self);
        }
        self.start_pos = None;
        self.end_pos = None;
    }

    /// The cell the drag in flight started from.
    pub fn drag_start(&self) -> (cell: Option<(u8, u8)>)
        ensures
            cell == self@.drag_start,
            cell matches Some(c) ==> valid_cell(c),
    {
        proof {
            use_type_invariant(self);
        }
        self.start_pos
    }

    /// The cell the drag in flight hovers over.
    pub fn drag_target(&self) -> (cell: Option<(u8, u8)>)
        ensures
            cell == self@.drag_target,
            cell matches Some(c) ==> valid_cell(c),
    {
        proof {
            use_type_invariant(self);
        }
        self.end_pos
    }

    /// The piece image cache.
    pub fn image_manager(&self) -> (cache: &ImageManager)
        ensures
            cache@ == self@.image,
    {
        &self.image_manager
    }

    /// Offers the piece image rasterized for `size`, as PNG, to the cache.
    /// The cells, the cell size and the drag markers stay as they are.
    pub fn update_image_size(&mut self, size: u32, encoded: &[u8]) -> (outcome: Result<
        (),
        CacheError,
    >)
        ensures
            final(self)@ == old(self)@.with_image(size, decoded_png(encoded@)),
            outcome == old(self)@.image.update_outcome(size, decoded_png(encoded@)),
            old(self)@.consistent() ==> final(self)@.consistent(),
    {
        proof {
            use_type_invariant(&*self);
        }
        if size == 0 {
            return Err(CacheError::NoPixels);
        }
        if self.image_manager.is_current(size) {
            return Ok(());
        }
        match ImageManager::from_encoded(size, encoded) {
            Ok(cache) => {
                self.image_manager = cache;
                Ok(())
            },
            Err(reason) => Err(reason),
        }
    }

    /// Takes note of the area the board is drawn into. Returns the size at
    /// which the piece image has to be rasterized anew, or `None` where the
    /// cache holds that size already. For an area without room for a cell
    /// that size is zero, for which no image can be made.
    pub fn on_resize(&mut self, width: i32, height: i32) -> (rasterize: Option<u32>)
        ensures
            final(self)@ == old(self)@.resized(width as int, height as int),
            rasterize == if final(self)@.cell_size == old(self)@.image.size {
                None
            } else {
                Some(final(self)@.cell_size)
            },
            old(self)@.consistent() ==> final(self)@.consistent(),
    {
        let size = cell_size_for(width, height);
        self.update_cell_size(size);
        if self.image_manager.is_current(size) {
            None
        } else {
            Some(size)
        }
    }

    /// Handles a pointer pressed at `(x, y)`. Over the cell that holds the
    /// piece a drag starts: the cell is recorded and the payload for the
    /// transfer is returned. Anywhere else nothing changes and there is no
    /// payload.
    pub fn on_drag_prepare(&mut self, x: i32, y: i32) -> (payload: Option<TransferPayload>)
        ensures
            final(self)@ == old(self)@.prepared(x as int, y as int),
            payload is Some <==> old(self)@.drag_source_at(x as int, y as int) is Some,
            payload matches Some(p) ==> p@ == seq![PIECE],
            old(self)@.consistent() ==> final(self)@.consistent(),
    {
        proof {
            if self@.consistent() {
                lemma_step_keeps_consistency(self@, EventView::Prepare { x: x as int, y: y as int });
            }
        }
        match cell_at(x, y, self.cell_size) {
            Some(cell) => {
                if self.get_value_at(cell.1, cell.0) == PIECE {
                    self.begin_drag(cell);
                    Some(TransferPayload::for_piece())
                } else {
                    None
                }
            },
            None => None,
        }
    }

    /// Handles the pointer of a drag moving to `(x, y)`.
    pub fn on_drag_motion(&mut self, x: i32, y: i32)
        ensures
            final(self)@ == old(self)@.hovered(x as int, y as int),
            old(self)@.consistent() ==> final(self)@.consistent(),
    {
        proof {
            use_type_invariant(&*self);
            if self@.consistent() {
                lemma_step_keeps_consistency(self@, EventView::Motion { x: x as int, y: y as int });
            }
        }
        if self.start_pos.is_some() {
            self.end_pos = cell_at(x, y, self.cell_size);
        }
    }

    /// Handles a drop at `(x, y)`. Every drop is accepted; what it does to
    /// the board is `BoardView::dropped`.
    pub fn on_drop(&mut self, x: i32, y: i32, payload: &TransferPayload) -> (accepted: bool)
        ensures
            accepted,
            final(self)@ == old(self)@.dropped(x as int, y as int, payload@),
            old(self)@.consistent() ==> final(self)@.consistent(),
    {
        proof {
            if self@.consistent() {
                lemma_step_keeps_consistency(
                    self@,
                    EventView::Drop { x: x as int, y: y as int, payload: payload@ },
                );
            }
        }
        let source = match self.drag_start() {
            Some(source) => source,
            None => {
                return true;
            },
        };
        match (cell_at(x, y, self.cell_size), payload.piece()) {
            (Some(destination), Some(piece)) => {
                if destination.0 == source.0 && destination.1 == source.1 {
                    self.set_value_at(source.0, source.1, piece);
                } else {
                    self.set_value_at(destination.0, destination.1, piece);
                    self.set_value_at(source.0, source.1, EMPTY);
                }
            },
            _ => {},
        }
        self.end_drag();
        true
    }

    /// The cell to paint the piece at, if it is to be painted.
    pub fn visible_piece(&self) -> (cell: Option<(u8, u8)>)
        ensures
            cell == self@.visible_piece(),
    {
        match self.start_pos {
            None => self.occupied_cell(),
            Some(_) => None,
        }
    }

    /// Describes the frame of the board for an area of `width` by `height`
    /// pixels.
    pub fn on_paint(&self, width: i32, height: i32) -> (frame: Frame)
        ensures
            frame@ == self@.frame(width as int, height as int),
    {
        draw_content(
            width,
            height,
            &self.image_manager,
            self.visible_piece(),
            self.start_pos,
            self.end_pos,
        )
    }

    /// The icon to show at the pointer during a drag.
    pub fn drag_icon(&self) -> (icon: DragIcon)
        ensures
            icon@ == self@.drag_icon(),
    {
        let half: i32 = (self.cell_size / 2) as i32;
        DragIcon { image: self.image_manager.get_image_clone(), hot_x: half, hot_y: half }
    }
}

} // verus!
