//! The protocol between the host and the board: the events the host
//! delivers, the reply to each, and what holds of the board after any
//! sequence of events.

use vstd::prelude::*;
use crate::board::{Board, BoardView, EMPTY, PIECE};
use crate::drawing::{Frame, FrameView};
use crate::geometry::{lemma_cell_at_encloses, valid_cell};
use crate::image_manager::{decoded_png, CacheError, ImageView};
use crate::payload::TransferPayload;

verus! {

/// What the host reports to the board.
#[derive(Debug, PartialEq, Eq)]
pub enum Event {
    /// The area the board is drawn into changed.
    Resize { width: i32, height: i32 },
    /// The piece image was rasterized for `size` and encoded as PNG.
    ImageReady { size: u32, encoded: Vec<u8> },
    /// The pointer was pressed at a pixel.
    Prepare { x: i32, y: i32 },
    /// The pointer of a drag moved to a pixel.
    Motion { x: i32, y: i32 },
    /// A drag was dropped at a pixel.
    Drop { x: i32, y: i32, payload: TransferPayload },
    /// The board has to be painted.
    Paint { width: i32, height: i32 },
}

/// An event as a mathematical value.
pub enum EventView {
    Resize { width: int, height: int },
    ImageReady { size: u32, encoded: Seq<u8> },
    Prepare { x: int, y: int },
    Motion { x: int, y: int },
    Drop { x: int, y: int, payload: Seq<char> },
    Paint { width: int, height: int },
}

impl View for Event {
    type V = EventView;

    open spec fn view(&self) -> EventView {
        match *self {
            Event::Resize { width, height } => EventView::Resize {
                width: width as int,
                height: height as int,
            },
            Event::ImageReady { size, encoded } => EventView::ImageReady { size, encoded: encoded@ },
            Event::Prepare { x, y } => EventView::Prepare { x: x as int, y: y as int },
            Event::Motion { x, y } => EventView::Motion { x: x as int, y: y as int },
            Event::Drop { x, y, payload } => EventView::Drop {
                x: x as int,
                y: y as int,
                payload: payload@,
            },
            Event::Paint { width, height } => EventView::Paint {
                width: width as int,
                height: height as int,
            },
        }
    }
}

/// What the board answers to an event.
#[derive(Debug, PartialEq, Eq)]
pub enum Reply {
    /// The size at which the piece image has to be rasterized anew, if any.
    Resized { rasterize: Option<u32> },
    /// Whether the cache is content with the image it was offered.
    ImageChecked { outcome: Result<(), CacheError> },
    /// The payload of the drag that started, if one started.
    Prepared { payload: Option<TransferPayload> },
    /// The hover marker was updated.
    Hovering,
    /// Whether the drop was accepted, which it always is.
    Dropped { accepted: bool },
    /// The frame to paint.
    Painted { frame: Frame },
}

/// A reply as a mathematical value.
pub enum ReplyView {
    Resized { rasterize: Option<u32> },
    ImageChecked { outcome: Result<(), CacheError> },
    Prepared { payload: Option<Seq<char>> },
    Hovering,
    Dropped { accepted: bool },
    Painted { frame: FrameView },
}

impl View for Reply {
    type V = ReplyView;

    open spec fn view(&self) -> ReplyView {
        match *self {
            Reply::Resized { rasterize } => ReplyView::Resized { rasterize },
            Reply::ImageChecked { outcome } => ReplyView::ImageChecked { outcome },
            Reply::Prepared { payload } => ReplyView::Prepared {
                payload: match payload {
                    Some(p) => Some(p@),
                    None => None,
                },
            },
            Reply::Hovering => ReplyView::Hovering,
            Reply::Dropped { accepted } => ReplyView::Dropped { accepted },
            Reply::Painted { frame } => ReplyView::Painted { frame: frame@ },
        }
    }
}

impl BoardView {
    /// The board after `event`.
    pub open spec fn step(self, event: EventView) -> BoardView {
        match event {
            EventView::Resize { width, height } => self.resized(width, height),
            EventView::ImageReady { size, encoded } => self.with_image(size, decoded_png(encoded)),
            EventView::Prepare { x, y } => self.prepared(x, y),
            EventView::Motion { x, y } => self.hovered(x, y),
            EventView::Drop { x, y, payload } => self.dropped(x, y, payload),
            EventView::Paint { width, height } => self,
        }
    }

    /// The reply to `event`.
    pub open spec fn reply(self, event: EventView) -> ReplyView {
        match event {
            EventView::Resize { width, height } => ReplyView::Resized {
                rasterize: if self.resized(width, height).cell_size == self.image.size {
                    None
                } else {
                    Some(self.resized(width, height).cell_size)
                },
            },
            EventView::ImageReady { size, encoded } => ReplyView::ImageChecked {
                outcome: self.image.update_outcome(size, decoded_png(encoded)),
            },
            EventView::Prepare { x, y } => ReplyView::Prepared {
                payload: if self.drag_source_at(x, y) is Some {
                    Some(seq![PIECE])
                } else {
                    None
                },
            },
            EventView::Motion { x, y } => ReplyView::Hovering,
            EventView::Drop { x, y, payload } => ReplyView::Dropped { accepted: true },
            EventView::Paint { width, height } => ReplyView::Painted {
                frame: self.frame(width, height),
            },
        }
    }

    /// The cell that `event` moves the piece to, if it moves it: only a drop
    /// on another cell than the one the drag started from does.
    pub open spec fn destination_of(self, event: EventView) -> Option<(u8, u8)> {
        match event {
            EventView::Drop { x, y, payload } => self.move_destination(x, y, payload),
            _ => None,
        }
    }
}

/// The board after all of `events`, in their order.
pub open spec fn run(start: BoardView, events: Seq<EventView>) -> BoardView
    decreases events.len(),
{
    if events.len() == 0 {
        start
    } else {
        run(start, events.drop_last()).step(events.last())
    }
}

/// The destination of the last of `events` that moved the piece, and `None`
/// if none of them did.
pub open spec fn last_destination(start: BoardView, events: Seq<EventView>) -> Option<(u8, u8)>
    decreases events.len(),
{
    if events.len() == 0 {
        None
    } else {
        match run(start, events.drop_last()).destination_of(events.last()) {
            Some(destination) => Some(destination),
            None => last_destination(start, events.drop_last()),
        }
    }
}

impl Board {
    /// Handles one event: the board takes the step of the event and the
    /// reply is the one the event calls for.
    pub fn dispatch(&mut self, event: &Event) -> (reply: Reply)
        ensures
            final(self)@ == old(self)@.step(event@),
            reply@ == old(self)@.reply(event@),
            old(self)@.consistent() ==> final(self)@.consistent(),
    {
        match event {
            Event::Resize { width, height } => Reply::Resized {
                rasterize: self.on_resize(*width, *height),
            },
            Event::ImageReady { size, encoded } => Reply::ImageChecked {
                outcome: self.update_image_size(*size, encoded.as_slice()),
            },
            Event::Prepare { x, y } => Reply::Prepared { payload: self.on_drag_prepare(*x, *y) },
            Event::Motion { x, y } => {
                self.on_drag_motion(*x, *y);
                Reply::Hovering
            },
            Event::Drop { x, y, payload } => Reply::Dropped {
                accepted: self.on_drop(*x, *y, payload),
            },
            Event::Paint { width, height } => Reply::Painted {
                frame: self.on_paint(*width, *height),
            },
        }
    }
}

/// A write to a cell is read back from that cell, and every other cell reads
/// as before.
pub proof fn lemma_write_then_read(board: BoardView, cell: (u8, u8), value: char, other: (u8, u8))
    ensures
        board.with_value(cell, value).value_at(cell) == value,
        other != cell ==> board.with_value(cell, value).value_at(other) == board.value_at(other),
{
}

/// On a board with one piece, a cell is occupied exactly if it is the
/// occupied cell: no second cell holds the piece and the piece is not
/// missing.
pub proof fn lemma_one_piece_is_alone(board: BoardView, cell: (u8, u8))
    requires
        board.has_one_piece(),
        valid_cell(cell),
    ensures
        board.occupied_cell() is Some,
        board.occupied(cell) <==> board.occupied_cell() == Some(cell),
        !board.occupied(cell) ==> board.value_at(cell) == EMPTY,
{
}

/// No event breaks the consistency of the board: after it, still exactly one
/// cell holds the piece, and the markers are as consistency asks.
pub proof fn lemma_step_keeps_consistency(board: BoardView, event: EventView)
    requires
        board.consistent(),
    ensures
        board.step(event).consistent(),
{
    match event {
        EventView::Drop { x, y, payload } => {
            lemma_cell_at_encloses(x, y, board.cell_size as int);
        },
        EventView::Motion { x, y } => {
            lemma_cell_at_encloses(x, y, board.cell_size as int);
        },
        _ => {},
    }
}

/// Every board that the host can bring about is consistent: from the board
/// at construction, whatever events arrive in whatever order, exactly one
/// cell holds the piece, also whenever no drag is in flight.
pub proof fn lemma_reachable_boards_are_consistent(image: ImageView, events: Seq<EventView>)
    ensures
        run(BoardView::initial(image), events).consistent(),
        run(BoardView::initial(image), events).has_one_piece(),
{
    lemma_run_keeps_consistency(BoardView::initial(image), events);
}

/// Consistency lasts through any sequence of events.
pub proof fn lemma_run_keeps_consistency(start: BoardView, events: Seq<EventView>)
    requires
        start.consistent(),
    ensures
        run(start, events).consistent(),
    decreases events.len(),
{
    if events.len() > 0 {
        lemma_run_keeps_consistency(start, events.drop_last());
        lemma_step_keeps_consistency(run(start, events.drop_last()), events.last());
    }
}

/// An event that moves the piece leaves it on the destination, and any other
/// event leaves it where it was.
pub proof fn lemma_step_moves_piece(board: BoardView, event: EventView)
    requires
        board.consistent(),
    ensures
        board.step(event).occupied_cell() == match board.destination_of(event) {
            Some(destination) => Some(destination),
            None => board.occupied_cell(),
        },
{
    lemma_step_keeps_consistency(board, event);
}

/// After any sequence of events the piece is on the destination of the last
/// drop that moved it, and where it was at the start if none moved it.
pub proof fn lemma_piece_is_where_last_moved(start: BoardView, events: Seq<EventView>)
    requires
        start.consistent(),
    ensures
        run(start, events).occupied_cell() == match last_destination(start, events) {
            Some(destination) => Some(destination),
            None => start.occupied_cell(),
        },
    decreases events.len(),
{
    if events.len() > 0 {
        let before = run(start, events.drop_last());
        lemma_piece_is_where_last_moved(start, events.drop_last());
        lemma_run_keeps_consistency(start, events.drop_last());
        lemma_step_moves_piece(before, events.last());
    }
}

/// A drag that ends with a drop that moves nothing leaves the board exactly
/// as it was before the drag began: be it that the pointer is off the board,
/// that the payload names nothing, or that the drop is on the cell the drag
/// started from. This holds wherever the pointer hovered in between.
pub proof fn lemma_drop_without_move_restores(
    board: BoardView,
    press: (int, int),
    hovers: Seq<(int, int)>,
    release: (int, int),
    payload: Seq<char>,
)
    requires
        board.complete(),
        board.drag_start is None,
        board.drag_target is None,
        board.prepared(press.0, press.1).move_destination(release.0, release.1, payload) is None,
    ensures
        hovered_along(board.prepared(press.0, press.1), hovers).dropped(
            release.0,
            release.1,
            payload,
        ) == board,
{
    let started = board.prepared(press.0, press.1);
    lemma_hovering_moves_target_only(started, hovers);
    if started.drag_start is None {
        lemma_hovering_without_drag(started, hovers);
    } else {
        lemma_cell_at_encloses(press.0, press.1, board.cell_size as int);
    }
}

/// A drag that ends with a drop on the cell it started from leaves the board
/// exactly as it was before the drag began, whatever the payload and
/// wherever the pointer hovered in between.
pub proof fn lemma_same_cell_drop_restores(
    board: BoardView,
    press: (int, int),
    hovers: Seq<(int, int)>,
    release: (int, int),
    payload: Seq<char>,
)
    requires
        board.complete(),
        board.drag_start is None,
        board.drag_target is None,
        board.prepared(press.0, press.1).drag_start is Some,
        board.cell_at(release.0, release.1) == board.prepared(press.0, press.1).drag_start,
    ensures
        hovered_along(board.prepared(press.0, press.1), hovers).dropped(
            release.0,
            release.1,
            payload,
        ) == board,
{
    lemma_drop_without_move_restores(board, press, hovers, release, payload);
}

/// The board after the pointer of a drag hovered over each of `hovers` in
/// turn.
pub open spec fn hovered_along(board: BoardView, hovers: Seq<(int, int)>) -> BoardView
    decreases hovers.len(),
{
    if hovers.len() == 0 {
        board
    } else {
        hovered_along(board, hovers.drop_last()).hovered(hovers.last().0, hovers.last().1)
    }
}

/// Hovering changes the hover marker and nothing else.
pub proof fn lemma_hovering_moves_target_only(board: BoardView, hovers: Seq<(int, int)>)
    ensures
        hovered_along(board, hovers) == (BoardView {
            drag_target: hovered_along(board, hovers).drag_target,
            ..board
        }),
    decreases hovers.len(),
{
    if hovers.len() > 0 {
        lemma_hovering_moves_target_only(board, hovers.drop_last());
    }
}

/// Without a drag in flight, hovering changes nothing at all.
pub proof fn lemma_hovering_without_drag(board: BoardView, hovers: Seq<(int, int)>)
    requires
        board.drag_start is None,
    ensures
        hovered_along(board, hovers) == board,
    decreases hovers.len(),
{
    if hovers.len() > 0 {
        lemma_hovering_without_drag(board, hovers.drop_last());
    }
}

} // verus!
