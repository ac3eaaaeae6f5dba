//! The rules of a small terminal typing game, verified with Verus.
//!
//! A game shows a random letter or digit, waits for a key, and counts the
//! keys that match. After a fixed number of rounds a time bonus is added and
//! the total is shown. This crate holds everything the game decides: what is
//! put on the screen and when, how a key is judged, how the bonus is earned
//! and how the messages are worded. Reading keys, sleeping and writing to the
//! terminal are left to the caller, who is handed a list of [`effect::Effect`]s
//! to carry out.

pub mod bonus;
pub mod clock;
pub mod effect;
pub mod game;
pub mod keys;
pub mod message;
pub mod prompt;
pub mod session;
