//! Matchmaking and session-relay engine for a two-player 3x3 grid game.
//!
//! The library pairs waiting connections into sessions (first-in, first-out),
//! keeps an authoritative per-connection replica of the board, validates and
//! applies moves from either side, detects terminal outcomes, and forwards
//! validated state to both participants without cross-talk between sessions.
//! A compact binary codec translates between the wire frames and the message
//! envelope.

pub mod board;
pub mod client;
pub mod codec;
pub mod mark;
pub mod queue;
pub mod relay;
pub mod session;
