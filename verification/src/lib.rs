//! Shiritori: a word-chaining game engine.
//!
//! Every word played must begin with the syllable on which the previous word
//! ended, and a word that ends on the terminal syllable loses the turn.
//!
//! [`syllable`] classifies single characters, [`validator`] judges a candidate
//! word against the word before it, [`bot`] keeps the words of one room and
//! [`shiritori`](mod@shiritori) keeps the games of all rooms. [`tokens`] and
//! [`command`] read a chat message as a command and [`reply`] writes the
//! answers.

pub mod constants;
pub mod syllable;
pub mod text;
pub mod validator;
pub mod word;
pub mod inbound;
pub mod bot;
pub mod tokens;
pub mod command;
pub mod reply;
pub mod shiritori;

pub use crate::shiritori::Shiritori;
