//! The games of all rooms.

use std::collections::hash_map::Entry;
use std::collections::HashMap;
use vstd::prelude::*;
use crate::bot::{
    history_after, is_history, lemma_submission_keeps_history, play_reply, submit_spec, Bot,
    Submission,
};
use crate::command::{parse, parse_spec, Command, CommandView};
use crate::constants::HELP_STRING;
use crate::inbound::{Inbound, InboundView};
use crate::reply::{history_text, not_recognised, not_recognised_text, previous_word_text};
use crate::word::WordView;

verus! {

broadcast use vstd::std_specs::hash::group_hash_axioms;

/// The history of each room that has a game.
pub type Rooms = Map<u64, Seq<WordView>>;

/// The rooms once `room_id` has been referred to: a room without a game gets
/// one in which nothing has been played, and nothing else changes.
pub open spec fn get_or_create_spec(rooms: Rooms, room_id: u64) -> Rooms {
    if rooms.contains_key(room_id) {
        rooms
    } else {
        rooms.insert(room_id, Seq::empty())
    }
}

/// The rooms after `message` has arrived, and the answer to send, if any.
///
/// The room of the message has a game from then on, whatever the message
/// says. Only a word that is played changes a history.
pub open spec fn message_spec(rooms: Rooms, message: InboundView) -> (Rooms, Option<Seq<char>>) {
    let present = get_or_create_spec(rooms, message.room_id);
    let h = present[message.room_id];
    match parse_spec(message.raw_text) {
        CommandView::Ignored => (present, None),
        CommandView::Help => (present, Some(HELP_STRING@)),
        CommandView::History => (present, Some(history_text(h))),
        CommandView::ShowWord => (
            present,
            Some(previous_word_text(h, message.sender_display_name)),
        ),
        CommandView::Play(word) => (
            present.insert(
                message.room_id,
                submit_spec(h, message.sender_id, message.sender_display_name, word).0,
            ),
            Some(play_reply(h, message, word)),
        ),
        CommandView::NotRecognised => (present, Some(not_recognised_text(message.raw_text))),
    }
}

/// The games of all rooms, at most one for each room.
pub struct Shiritori {
    bots: HashMap<u64, Bot>,
}

impl View for Shiritori {
    type V = Rooms;

    closed spec fn view(&self) -> Rooms {
        self.bots@.map_values(|bot: Bot| bot@)
    }
}

impl Shiritori {
    /// No room has a game yet.
    pub fn new() -> (games: Shiritori)
        ensures
            games@ == Rooms::empty(),
    {
        let games = Shiritori { bots: HashMap::new() };
        games
    }

    /// The game of the room `room_id`, which is created if the room has none.
    pub fn get_or_create(&mut self, room_id: u64) -> (bot: &mut Bot)
        ensures
            bot@ == get_or_create_spec(old(self)@, room_id)[room_id],
            final(self)@ == get_or_create_spec(old(self)@, room_id).insert(room_id, final(bot)@),
    {
        match self.bots.entry(room_id) {
            Entry::Occupied(entry) => entry.into_mut(),
            Entry::Vacant(entry) => entry.insert(Bot::new()),
        }
    }

    /// The answer to the message `content`, which is no command.
    pub fn not_recognised(&self, content: &str) -> (text: String)
        ensures
            text@ == not_recognised_text(content@),
    {
        not_recognised(content)
    }

    /// Takes a message: the game of its room is looked up, or created, the
    /// message is read as a command and carried out there. The result is the
    /// answer to send; a message that is not addressed to the game gets none.
    pub fn message(&mut self, message: &Inbound) -> (reply: Option<String>)
        ensures
            final(self)@ == message_spec(old(self)@, message@).0,
            reply is None <==> message_spec(old(self)@, message@).1 is None,
            reply matches Some(text) ==> message_spec(old(self)@, message@).1 == Some(text@),
    {
        let bot = self.get_or_create(message.room_id);
        match parse(message.raw_text.as_str()) {
            Command::Ignored => None,
            Command::Help => Some(bot.help()),
            Command::History => Some(bot.show_history()),
            Command::ShowWord => Some(bot.show_previous_word(message.sender_display_name.as_str())),
            Command::Play(word) => Some(bot.try_play_word(message, word.as_str())),
            Command::NotRecognised => Some(bot.not_recognised(message.raw_text.as_str())),
        }
    }
}

/// Referring to a room twice gives the game that the first reference gave:
/// the second reference creates nothing and changes nothing.
pub proof fn lemma_get_or_create_twice(rooms: Rooms, room_id: u64)
    ensures
        get_or_create_spec(rooms, room_id).contains_key(room_id),
        get_or_create_spec(get_or_create_spec(rooms, room_id), room_id) == get_or_create_spec(
            rooms,
            room_id,
        ),
{
}

/// Referring to a room loses nothing: every game that was there is still
/// there, with its history, and no room but the one referred to gets a game.
pub proof fn lemma_get_or_create_keeps_games(rooms: Rooms, room_id: u64, other: u64)
    ensures
        rooms.contains_key(other) ==> get_or_create_spec(rooms, room_id).contains_key(other)
            && get_or_create_spec(rooms, room_id)[other] == rooms[other],
        other != room_id ==> (get_or_create_spec(rooms, room_id).contains_key(other)
            <==> rooms.contains_key(other)),
        !rooms.contains_key(room_id) ==> get_or_create_spec(rooms, room_id)[room_id]
            == Seq::<WordView>::empty(),
{
}

/// Whether every game in `rooms` holds a history.
pub open spec fn all_histories(rooms: Rooms) -> bool {
    forall|room_id: u64| rooms.contains_key(room_id) ==> is_history(#[trigger] rooms[room_id])
}

/// Whatever message arrives, every game still holds a history afterwards:
/// no message, be it rejected, lost or no command at all, breaks a chain.
pub proof fn lemma_message_keeps_histories(rooms: Rooms, message: InboundView)
    requires
        all_histories(rooms),
    ensures
        all_histories(message_spec(rooms, message).0),
{
    let present = get_or_create_spec(rooms, message.room_id);
    if let CommandView::Play(word) = parse_spec(message.raw_text) {
        lemma_submission_keeps_history(
            present[message.room_id],
            Submission {
                player: message.sender_id,
                name: message.sender_display_name,
                raw: word,
            },
        );
    }
}

/// A message touches the game of its own room and no other, and there it
/// changes the history only by playing a word.
pub proof fn lemma_message_changes_one_history(
    rooms: Rooms,
    message: InboundView,
    room_id: u64,
)
    requires
        rooms.contains_key(room_id),
    ensures
        message_spec(rooms, message).0.contains_key(room_id),
        room_id != message.room_id || !(parse_spec(message.raw_text) is Play) ==> message_spec(
            rooms,
            message,
        ).0[room_id] == rooms[room_id],
        room_id == message.room_id && parse_spec(message.raw_text) is Play ==> message_spec(
            rooms,
            message,
        ).0[room_id] == history_after(
            rooms[room_id],
            Submission {
                player: message.sender_id,
                name: message.sender_display_name,
                raw: parse_spec(message.raw_text)->Play_0,
            },
        ),
{
}

} // verus!
