//! Interfaces common to the board games served by the game service:
//! player and move identifiers, and the command codes of the service's
//! path-shaped request protocol.

use vstd::prelude::*;
use vstd::string::StringExecFns;

verus! {

/// Players are identified by single characters: in tic-tac-toe, 'X' and 'O'.
pub type Player = char;

/// Each move available from a given game state is identified by a positive
/// number, unique among the moves of that state.
pub type MoveId = u32;

/// The error returned when a command character is not one of the four known
/// command codes.
#[derive(Debug)]
pub struct UnknownCommand;

impl UnknownCommand {
    /// The user-facing description of this error.
    pub fn message(&self) -> (s: String)
        ensures
            s@ == "unknown command"@,
    {
        String::from_str("unknown command")
    }
}

/// The four commands the game service understands: start a fresh game, list
/// the legal moves of a state, render a state as text, and let the service
/// pick a move itself.
#[derive(PartialEq, Eq, Structural, Debug)]
pub enum Command {
    NewGame,
    List,
    RenderToText,
    Select,
}

/// The command a single command character decodes to, if any.
pub open spec fn spec_command(c: char) -> Option<Command> {
    if c == 'n' {
        Some(Command::NewGame)
    } else if c == 'l' {
        Some(Command::List)
    } else if c == 'r' {
        Some(Command::RenderToText)
    } else if c == 's' {
        Some(Command::Select)
    } else {
        None
    }
}

impl Command {
    /// Decodes a command character; every character other than the four
    /// command codes is rejected.
    pub fn try_from(c: char) -> (r: Result<Command, UnknownCommand>)
        ensures
            r is Ok <==> spec_command(c) is Some,
            r is Ok ==> r == Ok::<Command, UnknownCommand>(spec_command(c).unwrap()),
    {
        match c {
            'n' => Ok(Command::NewGame),
            'l' => Ok(Command::List),
            'r' => Ok(Command::RenderToText),
            's' => Ok(Command::Select),
            _ => Err(UnknownCommand),
        }
    }
}

} // verus!
