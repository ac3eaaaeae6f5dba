//! The game: its state, its stages, and what each stage puts on the screen.
//!
//! A game runs through a welcome screen, a countdown, a fixed number of
//! rounds, and the final score. Every function here decides one step of
//! that and returns the effects for the caller to carry out; the caller in
//! turn reads the keys and hands them in.

use crate::bonus::{bonus_for_reading, MAX_BONUS};
use crate::clock::elapsed_millis;
use crate::effect::Effect;
use crate::keys::{is_hit, judge, ENTER_KEY};
use crate::message::{decimal, points_word, Message};
use std::time::SystemTime;
use vstd::prelude::*;

verus! {

/// Number of rounds in a game.
pub const GAME_DURATION: usize = 10;

/// Number of ticks counted down before the first round.
pub const COUNTDOWN_SECONDS: usize = 3;

/// Seconds that one tick of the countdown stays on the screen.
pub const TICK_SECONDS: u64 = 1;

/// The most rounds that a game can count. The score is kept in 32 bits, and
/// no more rounds are counted than the score could hold if every one of
/// them were a hit.
pub const ROUND_LIMIT: usize = 2147483647;

/// What a game has come to: the keys that matched so far, and the rounds
/// that were played.
pub struct GameState {
    pub score: int,
    pub rounds_played: nat,
}

impl GameState {
    /// A game before its first round.
    pub open spec fn start() -> GameState {
        GameState { score: 0, rounds_played: 0 }
    }

    /// No more keys matched than rounds were played, and no more rounds were
    /// played than can be counted.
    pub open spec fn wf(self) -> bool {
        0 <= self.score <= self.rounds_played <= ROUND_LIMIT
    }

    /// Whether every round of the game has been played.
    pub open spec fn is_over(self) -> bool {
        self.rounds_played >= GAME_DURATION
    }

    /// The game after one more round, in which `prompt` was asked for and
    /// `answer` came back from the keyboard.
    pub open spec fn after_round(self, prompt: char, answer: Option<char>) -> GameState {
        GameState {
            score: if is_hit(prompt, answer) {
                self.score + 1
            } else {
                self.score
            },
            rounds_played: self.rounds_played + 1,
        }
    }

    /// The game after a run of rounds, each given as its prompt and its
    /// answer, the earliest first.
    pub open spec fn after_rounds(self, rounds: Seq<(char, Option<char>)>) -> GameState
        decreases rounds.len(),
    {
        if rounds.len() == 0 {
            self
        } else {
            self.after_rounds(rounds.drop_last()).after_round(rounds.last().0, rounds.last().1)
        }
    }
}

/// The two lines of the welcome screen.
pub open spec fn intro_script() -> Seq<Effect> {
    seq![Effect::Print(Message::Welcome), Effect::Print(Message::Ready)]
}

/// What removes the welcome screen again: each of its two lines is erased
/// on its own.
pub open spec fn intro_exit_script() -> Seq<Effect> {
    seq![Effect::ClearLastLines(1), Effect::ClearLastLines(1)]
}

/// One tick of the countdown: the seconds that are left are shown, stay for
/// a second, and are erased.
pub open spec fn tick_script(seconds_left: usize) -> Seq<Effect> {
    seq![
        Effect::Print(Message::Tick(seconds_left)),
        Effect::Sleep(TICK_SECONDS),
        Effect::ClearLastLines(1),
    ]
}

/// The countdown from `seconds` down to one, a tick for each.
pub open spec fn countdown_script(seconds: usize) -> Seq<Effect>
    decreases seconds,
{
    if seconds == 0 {
        Seq::empty()
    } else {
        tick_script(seconds) + countdown_script((seconds - 1) as usize)
    }
}

/// The score banner. The first banner is written below what is there; every
/// later one replaces the banner before it.
pub open spec fn score_bar_script(score: int, intro: bool) -> Seq<Effect> {
    if intro {
        seq![Effect::Print(Message::ScoreBar(score as i32))]
    } else {
        seq![Effect::ClearLastLines(1), Effect::Print(Message::ScoreBar(score as i32))]
    }
}

/// What follows an attempt to read a key: the line above is erased if that
/// was asked for and a key was in fact read.
pub open spec fn read_script(key: Option<char>, remove_line: bool) -> Seq<Effect> {
    if key is Some && remove_line {
        seq![Effect::ClearLastLines(1)]
    } else {
        Seq::empty()
    }
}

/// The line that asks for `prompt` to be pressed.
pub open spec fn prompt_script(prompt: char) -> Seq<Effect> {
    seq![Effect::Print(Message::Press(prompt))]
}

/// The bonus line followed by the final line.
pub open spec fn closing_script(score: int, bonus: i32) -> Seq<Effect> {
    seq![
        Effect::Print(Message::Bonus(bonus)),
        Effect::Print(Message::FinalScore(final_total(score, bonus))),
    ]
}

/// What a round puts on the screen once its key has been read: the prompt
/// goes, and on a hit the banner shows the new score.
pub open spec fn round_script(before: GameState, prompt: char, answer: Option<char>) -> Seq<Effect> {
    if is_hit(prompt, answer) {
        read_script(answer, true) + score_bar_script(before.score + 1, false)
    } else {
        read_script(answer, true)
    }
}

/// A game in progress.
#[derive(Clone, Copy, Debug)]
pub struct Game {
    score: i32,
    rounds_played: usize,
    start_time: SystemTime,
}

impl View for Game {
    type V = GameState;

    closed spec fn view(&self) -> GameState {
        GameState { score: self.score as int, rounds_played: self.rounds_played as nat }
    }
}

impl Game {
    #[verifier::type_invariant]
    spec fn inv(&self) -> bool {
        self@.wf()
    }

    /// The time at which the clock of the game was last started: the point
    /// from which the bonus is measured.
    pub closed spec fn started_at(&self) -> SystemTime {
        self.start_time
    }

    /// Sets up a game with no round played, and starts its clock at the
    /// time the system clock shows. Which time that is, is up to the system
    /// clock; what is done with it is what [`Game::new_at`] does.
    pub fn new() -> (game: Game)
        ensures
            game@ == GameState::start(),
    {
        let now = SystemTime::now();
        Game::new_at(now)
    }

    /// Sets up a game with no round played and its clock started at `now`.
    pub fn new_at(now: SystemTime) -> (game: Game)
        ensures
            game@ == GameState::start(),
            game.started_at() == now,
    {
        Game { score: 0, rounds_played: 0, start_time: now }
    }

    /// The number of keys that matched so far.
    pub fn score(&self) -> (score: i32)
        ensures
            score == self@.score,
            self@.wf(),
    {
        proof {
            use_type_invariant(self);
        }
        self.score
    }

    /// The number of rounds played so far.
    pub fn rounds_played(&self) -> (rounds: usize)
        ensures
            rounds == self@.rounds_played,
            self@.wf(),
    {
        proof {
            use_type_invariant(self);
        }
        self.rounds_played
    }

    /// Whether the last round has been played.
    pub fn is_over(&self) -> (over: bool)
        ensures
            over == self@.is_over(),
            over <==> self@.rounds_played >= GAME_DURATION,
    {
        proof {
            use_type_invariant(self);
        }
        self.rounds_played >= GAME_DURATION
    }

    /// Shows the welcome screen.
    pub fn intro_screen() -> (effects: Vec<Effect>)
        ensures
            effects@ == intro_script(),
    {
        let mut effects: Vec<Effect> = Vec::new();
        effects.push(Effect::Print(Message::Welcome));
        effects.push(Effect::Print(Message::Ready));
        effects
    }

    /// Decides what a key does to the welcome screen. Enter ends it, and
    /// the effects that remove it are returned; on every other key, and
    /// when no key could be read, the screen stays and `None` is returned.
    pub fn intro_key(key: Option<char>) -> (exit: Option<Vec<Effect>>)
        ensures
            exit is Some <==> key == Some(ENTER_KEY),
            exit is Some ==> exit->0@ == intro_exit_script(),
    {
        match key {
            Some(pressed) => {
                if pressed == ENTER_KEY {
                    let mut effects: Vec<Effect> = Vec::new();
                    effects.push(Effect::ClearLastLines(1));
                    effects.push(Effect::ClearLastLines(1));
                    Some(effects)
                } else {
                    None
                }
            },
            None => None,
        }
    }

    /// Counts down from `seconds` to one.
    pub fn countdown(seconds: usize) -> (effects: Vec<Effect>)
        ensures
            effects@ == countdown_script(seconds),
    {
        let mut effects: Vec<Effect> = Vec::new();
        let mut left: usize = seconds;
        while left > 0
            invariant
                left <= seconds,
                effects@ + countdown_script(left) == countdown_script(seconds),
            decreases left,
        {
            effects.push(Effect::Print(Message::Tick(left)));
            effects.push(Effect::Sleep(TICK_SECONDS));
            effects.push(Effect::ClearLastLines(1));
            left = left - 1;
        }
        effects
    }

    /// Starts the clock that the bonus is measured by, at the time the
    /// system clock shows. The score and the rounds are kept. Which time
    /// that is, is up to the system clock; what is done with it is what
    /// [`Game::start_clock_at`] does.
    pub fn start_clock(&mut self)
        ensures
            final(self)@ == old(self)@,
    {
        let now = SystemTime::now();
        self.start_clock_at(now);
    }

    /// Starts the clock that the bonus is measured by at `now`: from here
    /// on the bonus is measured from `now`. The score and the rounds are
    /// kept.
    pub fn start_clock_at(&mut self, now: SystemTime)
        ensures
            final(self)@ == old(self)@,
            final(self).started_at() == now,
    {
        proof {
            use_type_invariant(&*self);
        }
        self.start_time = now;
    }

    /// The time at which the clock was last started.
    pub fn clock_start(&self) -> (start: SystemTime)
        ensures
            start == self.started_at(),
    {
        self.start_time
    }

    /// Shows the score banner: below what is on the screen if `intro` is
    /// set, in place of the banner before it otherwise.
    pub fn refresh_score_bar(&self, intro: bool) -> (effects: Vec<Effect>)
        ensures
            effects@ == score_bar_script(self@.score, intro),
    {
        let mut effects: Vec<Effect> = Vec::new();
        if !intro {
            effects.push(Effect::ClearLastLines(1));
        }
        effects.push(Effect::Print(Message::ScoreBar(self.score)));
        effects
    }

    /// Decides what an attempt to read a key leaves to do: if a key was
    /// read and `remove_line` is set, the line above is erased.
    pub fn after_read(key: Option<char>, remove_line: bool) -> (effects: Vec<Effect>)
        ensures
            effects@ == read_script(key, remove_line),
    {
        let mut effects: Vec<Effect> = Vec::new();
        if key.is_some() && remove_line {
            effects.push(Effect::ClearLastLines(1));
        }
        effects
    }

    /// Asks for `prompt` to be pressed.
    pub fn round_prompt(prompt: char) -> (effects: Vec<Effect>)
        ensures
            effects@ == prompt_script(prompt),
    {
        let mut effects: Vec<Effect> = Vec::new();
        effects.push(Effect::Print(Message::Press(prompt)));
        effects
    }

    /// Plays one round to its end: `prompt` was asked for, and `answer` is
    /// what came back from the keyboard, `None` if nothing could be read.
    ///
    /// The round counts whatever the answer. The score goes up by one if
    /// the answer is the prompt, ASCII case aside, and stays as it is
    /// otherwise. The clock is not touched. A game plays as many rounds as
    /// it is given; how many make a game is for the caller to ask with
    /// [`Game::is_over`], and the only rounds that cannot be played are
    /// those that can no longer be counted.
    pub fn play_round(&mut self, prompt: char, answer: Option<char>) -> (effects: Vec<Effect>)
        requires
            old(self)@.rounds_played < ROUND_LIMIT,
        ensures
            final(self)@ == old(self)@.after_round(prompt, answer),
            is_hit(prompt, answer) ==> final(self)@.score == old(self)@.score + 1,
            !is_hit(prompt, answer) ==> final(self)@.score == old(self)@.score,
            final(self)@.rounds_played == old(self)@.rounds_played + 1,
            final(self)@.wf(),
            final(self).started_at() == old(self).started_at(),
            effects@ == round_script(old(self)@, prompt, answer),
    {
        proof {
            use_type_invariant(&*self);
        }
        let mut effects = Game::after_read(answer, true);
        self.rounds_played = self.rounds_played + 1;
        if judge(prompt, answer) {
            self.score = self.score + 1;
            let mut banner = self.refresh_score_bar(false);
            effects.append(&mut banner);
        }
        effects
    }

    /// Reads how many milliseconds have passed since the clock was started;
    /// `None` when the system clock cannot tell.
    pub(crate) fn clock_reading(&self) -> (reading: Option<u128>) {
        let start = self.clock_start();
        elapsed_millis(&start)
    }

    /// Reads the clock and computes the bonus for the time since it was
    /// started. The bonus depends on the clock alone; whatever the clock
    /// says, it lies between nothing and the largest bonus.
    pub fn calculate_bonus(&self) -> (bonus: i32)
        ensures
            0 <= bonus <= MAX_BONUS,
    {
        bonus_for_reading(self.clock_reading())
    }

    /// Shows the bonus.
    pub fn bonus_line(bonus: i32) -> (effects: Vec<Effect>)
        ensures
            effects@ == seq![Effect::Print(Message::Bonus(bonus))],
    {
        let mut effects: Vec<Effect> = Vec::new();
        effects.push(Effect::Print(Message::Bonus(bonus)));
        effects
    }

    /// Shows the final score: the score of the rounds and the bonus, added
    /// up.
    pub fn display_final_score(&self, bonus: i32) -> (effects: Vec<Effect>)
        ensures
            effects@ == seq![Effect::Print(Message::FinalScore(final_total(self@.score, bonus)))],
            final_total(self@.score, bonus) == self@.score + bonus,
            self@.wf(),
    {
        proof {
            use_type_invariant(self);
        }
        let total: i64 = self.score as i64 + bonus as i64;
        let mut effects: Vec<Effect> = Vec::new();
        effects.push(Effect::Print(Message::FinalScore(total)));
        effects
    }
}

/// The total of a score and a bonus, as the final line holds it.
pub open spec fn final_total(score: int, bonus: i32) -> i64 {
    (score + bonus) as i64
}

/// A round adds exactly one to the score when the key that was pressed is
/// the one asked for, ASCII case aside. When another key was pressed, or
/// none could be read, the score stays as it is. Either way the round
/// counts.
pub proof fn lemma_round_outcome(state: GameState, prompt: char, answer: Option<char>)
    ensures
        is_hit(prompt, answer) ==> state.after_round(prompt, answer).score == state.score + 1,
        !is_hit(prompt, answer) ==> state.after_round(prompt, answer).score == state.score,
        answer is None ==> state.after_round(prompt, answer).score == state.score,
        state.after_round(prompt, answer).rounds_played == state.rounds_played + 1,
{
}

/// Whether an effect asks for a character to be pressed.
pub open spec fn is_prompt(effect: Effect) -> bool {
    effect matches Effect::Print(Message::Press(_))
}

/// A round asks once. The prompt is a single line that names the character,
/// and nothing that the end of the round puts on the screen asks again,
/// whatever was read: a round is never played twice and never skipped.
pub proof fn lemma_round_asks_once(before: GameState, prompt: char, answer: Option<char>)
    ensures
        prompt_script(prompt) == seq![Effect::Print(Message::Press(prompt))],
        forall|i: int|
            0 <= i < round_script(before, prompt, answer).len() ==> !is_prompt(
                #[trigger] round_script(before, prompt, answer)[i],
            ),
        before.after_round(prompt, answer).rounds_played == before.rounds_played + 1,
{
}

/// Whatever is asked for and whatever is pressed, a game counts every round
/// it is given, never scores more than it has played, and is over with the
/// round that makes the full number and not before.
pub proof fn lemma_game_length(rounds: Seq<(char, Option<char>)>)
    ensures
        GameState::start().after_rounds(rounds).rounds_played == rounds.len(),
        0 <= GameState::start().after_rounds(rounds).score <= rounds.len(),
        GameState::start().after_rounds(rounds).is_over() <==> rounds.len() >= GAME_DURATION,
        rounds.len() <= ROUND_LIMIT ==> GameState::start().after_rounds(rounds).wf(),
    decreases rounds.len(),
{
    if rounds.len() > 0 {
        lemma_game_length(rounds.drop_last());
    }
}

/// The total on the final line is the score of the rounds plus the bonus,
/// exactly: for a score that a game can reach no bonus makes the sum leave
/// the range of the total.
pub proof fn lemma_final_total_is_sum(state: GameState, bonus: i32)
    requires
        state.wf(),
    ensures
        final_total(state.score, bonus) == state.score + bonus,
        Message::FinalScore(final_total(state.score, bonus)).text() == "You have scored "@
            + decimal(state.score + bonus) + points_word(state.score + bonus) + "!"@,
{
}

/// The countdown is three effects for each second, and the tick that is
/// `k` ticks from the start shows the seconds that are then left.
pub proof fn lemma_countdown_shape(seconds: usize, k: int)
    requires
        0 <= k < seconds,
    ensures
        countdown_script(seconds).len() == 3 * seconds,
        countdown_script(seconds)[3 * k] == Effect::Print(Message::Tick((seconds - k) as usize)),
        countdown_script(seconds)[3 * k + 1] == Effect::Sleep(TICK_SECONDS),
        countdown_script(seconds)[3 * k + 2] == Effect::ClearLastLines(1),
    decreases seconds,
{
    lemma_countdown_length((seconds - 1) as usize);
    if k > 0 {
        lemma_countdown_shape((seconds - 1) as usize, k - 1);
    }
}

/// The countdown is three effects for each second.
pub proof fn lemma_countdown_length(seconds: usize)
    ensures
        countdown_script(seconds).len() == 3 * seconds,
    decreases seconds,
{
    if seconds > 0 {
        lemma_countdown_length((seconds - 1) as usize);
    }
}

} // verus!
