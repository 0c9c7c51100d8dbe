//! The transfer payload of a drag: a short text that names what is dragged.

use vstd::prelude::*;
use crate::board::PIECE;

verus! {

/// Content format under which the payload text is offered to the host.
pub const PAYLOAD_FORMAT: &'static str = "text/plain";

/// The piece that a payload text names. A text names the piece if it starts
/// with the piece's character; an empty text, or one that starts with
/// anything else, names nothing.
pub open spec fn spec_payload_piece(text: Seq<char>) -> Option<char> {
    if text.len() > 0 && text[0] == PIECE {
        Some(PIECE)
    } else {
        None
    }
}

/// The text that travels with a drag from its start to the drop.
#[derive(Debug, PartialEq, Eq)]
pub struct TransferPayload {
    text: String,
}

impl View for TransferPayload {
    type V = Seq<char>;

    closed spec fn view(&self) -> Seq<char> {
        self.text@
    }
}

impl Clone for TransferPayload {
    /// A payload with the same text.
    fn clone(&self) -> (copy: TransferPayload)
        ensures
            copy@ == self@,
    {
        TransferPayload { text: self.text.clone() }
    }
}

impl TransferPayload {
    /// The payload for a drag of the piece: the piece's character alone.
    pub fn for_piece() -> (payload: TransferPayload)
        ensures
            payload@ == seq![PIECE],
            spec_payload_piece(payload@) == Some(PIECE),
    {
        proof {
            reveal_strlit("n");
        }
        let text = String::from_str("n");
        TransferPayload { text }
    }

    /// Wraps a text that came back from the host with a drop.
    pub fn from_text(text: String) -> (payload: TransferPayload)
        ensures
            payload@ == text@,
    {
        TransferPayload { text }
    }

    /// The text of the payload.
    pub fn text(&self) -> (text: &str)
        ensures
            text@ == self@,
    {
        self.text.as_str()
    }

    /// The piece the payload names, if it names one.
    pub fn piece(&self) -> (piece: Option<char>)
        ensures
            piece == spec_payload_piece(self@),
    {
        let text = self.text.as_str();
        if text.unicode_len() > 0 && text.get_char(0) == PIECE {
            Some(PIECE)
        } else {
            None
        }
    }
}

} // verus!
