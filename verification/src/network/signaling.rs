//! Finding a room through a hosted notice board, where the DHT is not to be
//! had.

use crate::network::events::strings_view;
use crate::text::{char_is_alphanumeric, to_lowercase, unicode_lowercase};
use vstd::prelude::*;
use vstd::string::StringExecFns;

verus! {

/// What a peer posts on the board of a room.
#[derive(Debug, PartialEq, Eq)]
pub struct SignalingMessage {
    pub peer_id: String,
    pub addresses: Vec<String>,
    pub room_code: String,
}

/// A [`SignalingMessage`] as mathematics.
pub struct SignalingMessageView {
    pub peer_id: Seq<char>,
    pub addresses: Seq<Seq<char>>,
    pub room_code: Seq<char>,
}

impl View for SignalingMessage {
    type V = SignalingMessageView;

    open spec fn view(&self) -> SignalingMessageView {
        SignalingMessageView {
            peer_id: self.peer_id@,
            addresses: strings_view(self.addresses@),
            room_code: self.room_code@,
        }
    }
}

/// A room code as it names a board: its letters and digits, in lower case.
pub open spec fn board_code(room_code: Seq<char>) -> Seq<char> {
    unicode_lowercase(room_code.filter(|c: char| char_is_alphanumeric(c)))
}

/// The board of the room with the code `room_code`.
pub open spec fn board_topic(room_code: Seq<char>) -> Seq<char> {
    "cider-together-"@ + board_code(room_code)
}

/// A room code as it names a board.
pub fn normalize_room_code(room_code: &str) -> (normalized: String)
    ensures
        normalized@ == board_code(room_code@),
{
    let mut kept = String::new();
    for c in it: room_code.chars()
        invariant
            it.seq() == room_code@,
            kept@ == room_code@.take(it.index()).filter(|c: char| char_is_alphanumeric(c)),
    {
        proof {
            let before = room_code@.take(it.index());
            let after = room_code@.take(it.index() + 1);
            assert(after.drop_last() == before);
            assert(after.last() == c);
            reveal(Seq::filter);
        }
        if c.is_alphanumeric() {
            kept.push(c);
        }
    }
    proof {
        assert(room_code@.take(room_code@.len() as int) == room_code@);
    }
    to_lowercase(kept.as_str())
}

/// The board of the room with the code `room_code`.
pub fn signaling_topic(room_code: &str) -> (topic: String)
    ensures
        topic@ == board_topic(room_code@),
{
    String::from_str("cider-together-").concat(normalize_room_code(room_code).as_str())
}

} // verus!
