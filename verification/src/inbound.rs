//! A chat message as the game receives it.

use vstd::prelude::*;

verus! {

/// A message that arrived in a room, with what the game needs to know of
/// its sender.
#[derive(Debug)]
pub struct Inbound {
    /// The room in which the message arrived.
    pub room_id: u64,
    /// The identifier of the sender.
    pub sender_id: u64,
    /// How the sender is addressed in an answer.
    pub sender_mention: String,
    /// The sender's name and discriminator.
    pub sender_tag: String,
    /// The name under which the sender is shown in the room.
    pub sender_display_name: String,
    /// The text of the message.
    pub raw_text: String,
}

/// An [`Inbound`] over plain values.
pub struct InboundView {
    pub room_id: u64,
    pub sender_id: u64,
    pub sender_mention: Seq<char>,
    pub sender_tag: Seq<char>,
    pub sender_display_name: Seq<char>,
    pub raw_text: Seq<char>,
}

impl View for Inbound {
    type V = InboundView;

    open spec fn view(&self) -> InboundView {
        InboundView {
            room_id: self.room_id,
            sender_id: self.sender_id,
            sender_mention: self.sender_mention@,
            sender_tag: self.sender_tag@,
            sender_display_name: self.sender_display_name@,
            raw_text: self.raw_text@,
        }
    }
}

} // verus!
