//! The commands that the bot answers, and which chat channels it serves.

pub mod about;
pub mod convert;

use crate::text::{owned, same_text};
use vstd::prelude::*;

verus! {

/// The channel that a debug build serves, and that a release build leaves
/// alone.
pub const DEBUG_CHANNEL: u64 = 1133927653074796555;

/// Whether a build serves a channel: a debug build the debug channel only,
/// a release build every other channel.
pub open spec fn serves(channel: u64, debug: bool) -> bool {
    (channel == DEBUG_CHANNEL) == debug
}

/// Whether a build serves a channel.
pub fn in_scope(channel: u64, debug: bool) -> (served: bool)
    ensures
        served == serves(channel, debug),
{
    (channel == DEBUG_CHANNEL) == debug
}

/// Whether a message gets a pipeline: one in a channel that the build
/// serves, and not written by a bot.
pub fn watches(channel: u64, from_bot: bool, debug: bool) -> (watched: bool)
    ensures
        watched == (serves(channel, debug) && !from_bot),
{
    in_scope(channel, debug) && !from_bot
}

/// The commands that the bot knows.
#[derive(Debug, Clone, Copy, PartialEq, Eq, Structural)]
pub enum Command {
    About,
    Convert,
    Unknown,
}

impl Command {
    /// The command of this name.
    pub open spec fn of_name(name: Seq<char>) -> Command {
        if name == "about"@ {
            Command::About
        } else if name == "convert"@ {
            Command::Convert
        } else {
            Command::Unknown
        }
    }

    /// The command of this name.
    pub fn named(name: &str) -> (command: Command)
        ensures
            command == Command::of_name(name@),
    {
        if same_text(name, "about") {
            Command::About
        } else if same_text(name, "convert") {
            Command::Convert
        } else {
            Command::Unknown
        }
    }
}

/// The answer to a command that the bot does not know.
pub fn not_implemented() -> (answer: String)
    ensures
        answer@ == "not implemented"@,
{
    owned("not implemented")
}

} // verus!
