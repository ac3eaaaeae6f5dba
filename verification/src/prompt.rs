//! Drawing the character that a round asks for.

use crate::keys::is_alphanumeric;
use rand::distributions::{Alphanumeric, DistString};
use vstd::prelude::*;

verus! {

/// The prompt shown if a draw should come back empty. It is not a letter or
/// a digit.
pub const FALLBACK_PROMPT: char = '`';

/// Number of characters drawn for one prompt.
pub const PROMPT_LENGTH: usize = 1;

/// Draws `len` characters with `rand`'s `Alphanumeric.sample_string` from the
/// generator of the current thread, `rand::thread_rng()`.
///
/// Assumed of `rand`, not proved: the string has exactly `len` characters,
/// and each is one of `A`-`Z`, `a`-`z`, `0`-`9`. Which ones is left open, as
/// they are random. The generator is seeded by the operating system the
/// first time a thread uses it, and `rand` panics if that fails.
#[verifier::external_body]
fn sample_alphanumeric(len: usize) -> (drawn: String)
    requires
        len <= isize::MAX,
    ensures
        drawn@.len() == len,
        forall|i: int| 0 <= i < drawn@.len() ==> is_alphanumeric(#[trigger] drawn@[i]),
{
    Alphanumeric.sample_string(&mut rand::thread_rng(), len)
}

/// The prompt that a drawn string stands for: its first character, or
/// `fallback` if it has none.
pub open spec fn first_or(drawn: Seq<char>, fallback: char) -> char {
    if drawn.len() > 0 {
        drawn[0]
    } else {
        fallback
    }
}

/// Takes the first character of `drawn`, or `fallback` if `drawn` is empty.
pub fn first_char_or(drawn: &str, fallback: char) -> (c: char)
    ensures
        c == first_or(drawn@, fallback),
{
    if drawn.is_empty() {
        fallback
    } else {
        drawn.get_char(0)
    }
}

/// Draws the character for one round: a random ASCII letter or digit.
///
/// Which character comes back is up to the random generator; whatever it
/// is, it is alphanumeric, and so never the fallback.
pub fn generate_random_character() -> (c: char)
    ensures
        is_alphanumeric(c),
        c != FALLBACK_PROMPT,
{
    let drawn = sample_alphanumeric(PROMPT_LENGTH);
    first_char_or(drawn.as_str(), FALLBACK_PROMPT)
}

} // verus!
