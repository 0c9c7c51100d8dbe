//! A two-by-two chess board with one draggable piece: the board state, the
//! drag-and-drop protocol, the frame description and the piece image cache.

pub mod board;
pub mod drawing;
pub mod geometry;
pub mod image_manager;
pub mod payload;
pub mod protocol;
