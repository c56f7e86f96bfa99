//! Fixed texts of the game.

use vstd::prelude::*;

verus! {

/// The token every message addressed to the game begins with.
pub const PREFIX: &'static str = "~";

/// What the game answers when asked for help.
pub const HELP_STRING: &'static str =
    "Play shiritori!\nCommands:\n    !shiri / !shiri help - Display this help message\n";

} // verus!
