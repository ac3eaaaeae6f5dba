//! The lines the game writes, and how each is worded.

use vstd::prelude::*;

verus! {

/// `String::push` appends one character to the end of a string and leaves
/// what was there untouched. This is assumed of the standard library, not
/// proved.
pub assume_specification[ std::string::String::push ](s: &mut String, ch: char)
    ensures
        final(s)@ == old(s)@.push(ch),
;

/// One line of output. A message says what is to be shown; [`Message::text`]
/// says how it reads.
#[derive(Clone, Copy, Debug, PartialEq, Eq, Structural)]
pub enum Message {
    /// The greeting.
    Welcome,
    /// The request to press enter.
    Ready,
    /// One tick of the countdown, with the seconds still to go.
    Tick(usize),
    /// The banner with the current score.
    ScoreBar(i32),
    /// The prompt for one round, with the character to press.
    Press(char),
    /// The bonus that was earned.
    Bonus(i32),
    /// The total that was scored.
    FinalScore(i64),
}

/// The code of the character `0`, which the other digits follow in order.
pub const ASCII_ZERO: u8 = 48;

/// The character for a single decimal digit.
pub open spec fn digit_char(d: nat) -> char
    recommends
        d < 10,
{
    (ASCII_ZERO + d) as char
}

/// The decimal digits of a natural number, most significant first, without
/// leading zeros; zero is the single digit `0`.
pub open spec fn decimal_digits(n: nat) -> Seq<char>
    decreases n,
{
    if n < 10 {
        seq![digit_char(n)]
    } else {
        decimal_digits(n / 10).push(digit_char(n % 10))
    }
}

/// An integer in decimal, with a leading minus sign when it is negative.
pub open spec fn decimal(i: int) -> Seq<char> {
    if i < 0 {
        seq!['-'] + decimal_digits((-i) as nat)
    } else {
        decimal_digits(i as nat)
    }
}

/// The word for what is counted: singular for exactly one, plural for every
/// other number, zero and negative numbers included.
pub open spec fn points_word(count: int) -> Seq<char> {
    if count == 1 {
        " point"@
    } else {
        " points"@
    }
}

impl Message {
    /// The text of the line, without the line break.
    pub open spec fn text(self) -> Seq<char> {
        match self {
            Message::Welcome => "Welcome to my typing game"@,
            Message::Ready => "When you are ready in front of your keyboard, press enter!"@,
            Message::Tick(seconds) => decimal(seconds as int),
            Message::ScoreBar(score) => "------------------ Score: "@ + decimal(score as int)
                + " ------------------"@,
            Message::Press(key) => "Press "@.push(key),
            Message::Bonus(bonus) => "Bonus: "@ + decimal(bonus as int) + points_word(bonus as int),
            Message::FinalScore(total) => "You have scored "@ + decimal(total as int) + points_word(
                total as int,
            ) + "!"@,
        }
    }

    /// Writes the line out as a string.
    pub fn render(&self) -> (line: String)
        ensures
            line@ == self.text(),
    {
        match *self {
            Message::Welcome => String::from_str("Welcome to my typing game"),
            Message::Ready => String::from_str(
                "When you are ready in front of your keyboard, press enter!",
            ),
            Message::Tick(seconds) => {
                let mut line = String::new();
                push_digits(&mut line, seconds as u64);
                line
            },
            Message::ScoreBar(score) => {
                let mut line = String::from_str("------------------ Score: ");
                push_decimal(&mut line, score as i64);
                line.append(" ------------------");
                line
            },
            Message::Press(key) => {
                let mut line = String::from_str("Press ");
                line.push(key);
                line
            },
            Message::Bonus(bonus) => {
                let mut line = String::from_str("Bonus: ");
                push_decimal(&mut line, bonus as i64);
                push_points_word(&mut line, bonus as i64);
                line
            },
            Message::FinalScore(total) => {
                let mut line = String::from_str("You have scored ");
                push_decimal(&mut line, total);
                push_points_word(&mut line, total);
                line.append("!");
                line
            },
        }
    }
}

/// The character for the digit `d`.
fn digit_of(d: u8) -> (c: char)
    requires
        d < 10,
    ensures
        c == digit_char(d as nat),
{
    (ASCII_ZERO + d) as char
}

/// Appends the decimal digits of `n` to `out`.
fn push_digits(out: &mut String, n: u64)
    ensures
        final(out)@ == old(out)@ + decimal_digits(n as nat),
    decreases n,
{
    if n >= 10 {
        push_digits(out, n / 10);
    }
    out.push(digit_of((n % 10) as u8));
}

/// Appends `i` in decimal to `out`.
fn push_decimal(out: &mut String, i: i64)
    ensures
        final(out)@ == old(out)@ + decimal(i as int),
{
    if i < 0 {
        out.push('-');
        // The magnitude of the smallest value does not fit the signed type.
        let magnitude: u64 = (-(i + 1)) as u64 + 1;
        push_digits(out, magnitude);
    } else {
        push_digits(out, i as u64);
    }
}

/// Appends the singular or the plural word to `out`.
fn push_points_word(out: &mut String, count: i64)
    ensures
        final(out)@ == old(out)@ + points_word(count as int),
{
    if count == 1 {
        out.append(" point");
    } else {
        out.append(" points");
    }
}

/// The singular is used for exactly one and for nothing else: the bonus
/// line and the final line end in "point" for one, with the exclamation
/// mark behind it on the final line, and in "points" for every other
/// number. The two words differ.
pub proof fn lemma_singular_only_for_one(count: i32)
    ensures
        count == 1 ==> Message::Bonus(count).text() == "Bonus: "@ + decimal(1) + " point"@,
        count != 1 ==> Message::Bonus(count).text() == "Bonus: "@ + decimal(count as int)
            + " points"@,
        count == 1 ==> Message::FinalScore(count as i64).text() == "You have scored "@ + decimal(1)
            + " point"@ + "!"@,
        count != 1 ==> Message::FinalScore(count as i64).text() == "You have scored "@ + decimal(
            count as int,
        ) + " points"@ + "!"@,
        " point"@ != " points"@,
{
    reveal_strlit(" point");
    reveal_strlit(" points");
    assert(" point"@.len() != " points"@.len());
}

/// Writes an integer in decimal.
pub fn decimal_string(i: i64) -> (s: String)
    ensures
        s@ == decimal(i as int),
{
    let mut s = String::new();
    push_decimal(&mut s, i);
    s
}

} // verus!
