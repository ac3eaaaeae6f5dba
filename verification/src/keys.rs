//! How a pressed key is judged against the character that was asked for.

use vstd::prelude::*;

verus! {

/// The key that ends the welcome screen.
pub const ENTER_KEY: char = '\n';

/// Distance between an upper case ASCII letter and its lower case form.
pub const ASCII_CASE_OFFSET: u8 = 32;

/// Whether `c` is one of the ASCII letters `A` to `Z`.
pub open spec fn is_ascii_upper(c: char) -> bool {
    'A' <= c && c <= 'Z'
}

/// Whether `c` is an ASCII letter or digit.
pub open spec fn is_alphanumeric(c: char) -> bool {
    ('A' <= c && c <= 'Z') || ('a' <= c && c <= 'z') || ('0' <= c && c <= '9')
}

/// `c` with the ASCII letters `A` to `Z` turned into `a` to `z`; every other
/// character, accented letters included, is left as it is.
pub open spec fn ascii_lower(c: char) -> char {
    if is_ascii_upper(c) {
        ((c as u8) + ASCII_CASE_OFFSET) as char
    } else {
        c
    }
}

/// Whether pressing `pressed` answers the prompt `prompt`: the two are the
/// same character once ASCII letters are compared without regard to case.
pub open spec fn same_key(prompt: char, pressed: char) -> bool {
    ascii_lower(prompt) == ascii_lower(pressed)
}

/// Whether what came back from the keyboard answers the prompt. No key at
/// all never does.
pub open spec fn is_hit(prompt: char, answer: Option<char>) -> bool {
    match answer {
        Some(pressed) => same_key(prompt, pressed),
        None => false,
    }
}

/// Folds an ASCII upper case letter to lower case.
pub fn to_ascii_lower(c: char) -> (folded: char)
    ensures
        folded == ascii_lower(c),
{
    if 'A' <= c && c <= 'Z' {
        let code: u8 = c as u8;
        (code + ASCII_CASE_OFFSET) as char
    } else {
        c
    }
}

/// Compares a pressed key with the prompt, ignoring ASCII case.
pub fn keys_match(prompt: char, pressed: char) -> (same: bool)
    ensures
        same == same_key(prompt, pressed),
{
    to_ascii_lower(prompt) == to_ascii_lower(pressed)
}

/// Judges the outcome of a read against the prompt.
pub fn judge(prompt: char, answer: Option<char>) -> (hit: bool)
    ensures
        hit == is_hit(prompt, answer),
{
    match answer {
        Some(pressed) => keys_match(prompt, pressed),
        None => false,
    }
}

/// A letter matches itself in either case, and matching does not depend on
/// which of the two characters is the prompt.
pub proof fn lemma_same_key_ignores_case(prompt: char, pressed: char)
    ensures
        same_key(prompt, prompt),
        same_key(prompt, ascii_lower(prompt)),
        same_key(prompt, pressed) == same_key(pressed, prompt),
{
}

} // verus!
