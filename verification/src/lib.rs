//! A verified core for an interactive board-game move selector.
//!
//! A human picks a move in a turn-based game from a terminal. While the move
//! identifier is being typed, the session asks a remote rendering oracle for a
//! preview of the board that would result, and repaints only the changed
//! terminal lines. Keystrokes and oracle replies arrive as two independent
//! event streams; the session state machine here decides, for every event,
//! how the session state changes and what the driver must do next, so that a
//! preview is never shown for a prefix the user has already abandoned.
//!
//! The crate also carries the game engine the oracle runs: a tic-tac-toe
//! rule set, and the request handler that serves it over a small path-shaped
//! command protocol.

pub mod game_core;
pub mod numerals;
mod strutil;
pub mod display;
pub mod preview;
pub mod repl;
pub mod service;
pub mod session;
pub mod tictactoe;
