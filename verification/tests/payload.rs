use simple_chess_dragging::board::PIECE;
use simple_chess_dragging::payload::{TransferPayload, PAYLOAD_FORMAT};

#[test]
fn payload_is_offered_as_plain_text() {
    assert_eq!(PAYLOAD_FORMAT, "text/plain");
}

#[test]
fn payload_of_the_piece_is_its_character() {
    let payload = TransferPayload::for_piece();
    assert_eq!(payload.text(), "n");
    assert_eq!(payload.piece(), Some(PIECE));
}

#[test]
fn text_is_kept_as_it_came() {
    let payload = TransferPayload::from_text(String::from("knight"));
    assert_eq!(payload.text(), "knight");
}

#[test]
fn text_that_starts_with_the_piece_names_it() {
    assert_eq!(TransferPayload::from_text(String::from("n")).piece(), Some('n'));
    assert_eq!(TransferPayload::from_text(String::from("nxyz")).piece(), Some('n'));
}

#[test]
fn empty_text_names_nothing() {
    assert_eq!(TransferPayload::from_text(String::new()).piece(), None);
}

#[test]
fn other_text_names_nothing() {
    assert_eq!(TransferPayload::from_text(String::from("x")).piece(), None);
    assert_eq!(TransferPayload::from_text(String::from("N")).piece(), None);
    assert_eq!(TransferPayload::from_text(String::from("\0")).piece(), None);
    assert_eq!(TransferPayload::from_text(String::from("én")).piece(), None);
}

#[test]
fn clone_of_a_payload_has_the_same_text() {
    let payload = TransferPayload::from_text(String::from("né"));
    let copy = payload.clone();
    assert_eq!(copy, payload);
    assert_eq!(copy.text(), "né");
}
