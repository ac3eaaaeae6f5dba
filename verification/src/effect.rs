//! What the game asks of the terminal it runs on.

use crate::message::Message;
use vstd::prelude::*;

verus! {

/// One thing for the caller to do. The game never touches the terminal or
/// the clock of the countdown itself: it hands out effects, in the order in
/// which they are to be carried out.
#[derive(Clone, Copy, Debug, PartialEq, Eq, Structural)]
pub enum Effect {
    /// Write the message on a line of its own.
    Print(Message),
    /// Erase this many lines above the cursor and move up to the first of
    /// them.
    ClearLastLines(usize),
    /// Wait for this many seconds.
    Sleep(u64),
}

} // verus!
