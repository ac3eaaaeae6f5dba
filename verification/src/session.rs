//! A whole game as one sequence of steps.
//!
//! A [`Session`] leads a game from the welcome screen to the final score.
//! The caller repeats three things until told to stop: take a step, carry
//! out its effects in order, and do what the step waits for.

use crate::bonus::{bonus_for_reading, bonus_points, reading_or_timeout};
use crate::effect::Effect;
use crate::game::{
    closing_script, countdown_script, intro_exit_script, intro_script, prompt_script,
    round_script, score_bar_script, Game, GameState, COUNTDOWN_SECONDS, GAME_DURATION,
};
use crate::keys::{is_alphanumeric, ENTER_KEY};
use crate::prompt::{generate_random_character, FALLBACK_PROMPT};
use std::time::SystemTime;
use vstd::prelude::*;

verus! {

/// Where a session stands.
#[derive(Clone, Copy, Debug, PartialEq, Eq, Structural)]
pub enum Stage {
    /// Nothing has been shown yet.
    Welcome,
    /// The welcome screen is up and enter is waited for.
    Intro,
    /// Enter was pressed; the countdown comes next.
    Countdown,
    /// The countdown has run; the clock starts and the first round begins.
    Starting,
    /// A round is on: the character was asked for and its key is waited
    /// for.
    Round(char),
    /// The last round has been played; the bonus and the total come next.
    Scoring,
    /// The total has been shown.
    Over,
}

/// What the caller does once the effects of a step are carried out.
#[derive(Clone, Copy, Debug, PartialEq, Eq, Structural)]
pub enum Wait {
    /// Read one key, blocking, and hand it to the next step; hand in `None`
    /// if the read fails.
    Key,
    /// Take the next step at once.
    Nothing,
    /// Stop: the game is over.
    Exit,
}

/// What one step asks of the caller.
#[derive(Debug, PartialEq, Eq)]
pub struct Step {
    /// The effects to carry out, in this order.
    pub effects: Vec<Effect>,
    /// What to do after them.
    pub wait: Wait,
}

/// A session as the contracts see it: the game and the stage.
pub struct SessionState {
    pub game: GameState,
    pub stage: Stage,
}

/// A step as the contracts see it: the session it leaves, what it puts on
/// the screen, and what it waits for.
pub struct Outcome {
    pub state: SessionState,
    pub effects: Seq<Effect>,
    pub wait: Wait,
}

impl Outcome {
    /// Whether a step that was taken is this one: it left the session in
    /// this state, asks for these effects in this order, and waits for the
    /// same thing.
    pub open spec fn is_met_by(self, state: SessionState, step: Step) -> bool {
        &&& state == self.state
        &&& step.effects@ =~= self.effects
        &&& step.wait == self.wait
    }
}

impl SessionState {
    /// A session before its first step.
    pub open spec fn start() -> SessionState {
        SessionState { game: GameState::start(), stage: Stage::Welcome }
    }

    /// The stage fits the game: no round is played before the rounds begin,
    /// a round is on only while rounds are left, and the rounds are left
    /// behind only when all of them are played.
    pub open spec fn wf(self) -> bool {
        &&& self.game.wf()
        &&& match self.stage {
            Stage::Welcome | Stage::Intro | Stage::Countdown | Stage::Starting => self.game
                == GameState::start(),
            Stage::Round(_) => self.game.rounds_played < GAME_DURATION,
            Stage::Scoring | Stage::Over => self.game.rounds_played == GAME_DURATION,
        }
    }

    /// Whether the next step draws a character to ask for: the step that
    /// begins the first round does, and so does every step that ends a
    /// round but the last.
    pub open spec fn draws_prompt(self) -> bool {
        match self.stage {
            Stage::Starting => true,
            Stage::Round(_) => self.game.rounds_played + 1 < GAME_DURATION,
            _ => false,
        }
    }

    /// The session with another stage.
    pub open spec fn at(self, stage: Stage) -> SessionState {
        SessionState { game: self.game, stage }
    }

    /// The session after a run of steps, each given as the key, the
    /// character and the clock reading that were handed to it, the earliest
    /// first.
    pub open spec fn after_steps(
        self,
        inputs: Seq<(Option<char>, char, Option<u128>)>,
    ) -> SessionState
        decreases inputs.len(),
    {
        if inputs.len() == 0 {
            self
        } else {
            let (key, prompt, reading) = inputs.last();
            self.after_steps(inputs.drop_last()).step(key, prompt, reading).state
        }
    }

    /// The step that the session takes next. `key` is what the read that
    /// the step before waited for brought back; `prompt` is the character
    /// drawn for the round that the step begins; `reading` is the time on
    /// the clock, in milliseconds, or `None` for a clock that cannot be
    /// read. A step that waits for no key, begins no round or shows no bonus
    /// ignores the one it has no use for.
    pub open spec fn step(self, key: Option<char>, prompt: char, reading: Option<u128>) -> Outcome {
        match self.stage {
            Stage::Welcome => Outcome {
                state: self.at(Stage::Intro),
                effects: intro_script(),
                wait: Wait::Key,
            },
            Stage::Intro => if key == Some(ENTER_KEY) {
                Outcome {
                    state: self.at(Stage::Countdown),
                    effects: intro_exit_script(),
                    wait: Wait::Nothing,
                }
            } else {
                Outcome { state: self, effects: Seq::empty(), wait: Wait::Key }
            },
            Stage::Countdown => Outcome {
                state: self.at(Stage::Starting),
                effects: countdown_script(COUNTDOWN_SECONDS),
                wait: Wait::Nothing,
            },
            Stage::Starting => Outcome {
                state: self.at(Stage::Round(prompt)),
                effects: score_bar_script(self.game.score, true) + prompt_script(prompt),
                wait: Wait::Key,
            },
            Stage::Round(asked) => {
                let game = self.game.after_round(asked, key);
                let shown = round_script(self.game, asked, key);
                if game.is_over() {
                    Outcome {
                        state: SessionState { game, stage: Stage::Scoring },
                        effects: shown,
                        wait: Wait::Nothing,
                    }
                } else {
                    Outcome {
                        state: SessionState { game, stage: Stage::Round(prompt) },
                        effects: shown + prompt_script(prompt),
                        wait: Wait::Key,
                    }
                }
            },
            Stage::Scoring => Outcome {
                state: self.at(Stage::Over),
                effects: closing_script(
                    self.game.score,
                    bonus_points(reading_or_timeout(reading)) as i32,
                ),
                wait: Wait::Exit,
            },
            Stage::Over => Outcome { state: self, effects: Seq::empty(), wait: Wait::Exit },
        }
    }
}

/// A game on its way from the welcome screen to the final score.
#[derive(Clone, Copy, Debug)]
pub struct Session {
    game: Game,
    stage: Stage,
}

impl View for Session {
    type V = SessionState;

    closed spec fn view(&self) -> SessionState {
        SessionState { game: self.game@, stage: self.stage }
    }
}

impl Session {
    #[verifier::type_invariant]
    spec fn inv(&self) -> bool {
        self@.wf()
    }

    /// The time at which the clock of the game was last started: the point
    /// from which the bonus is measured.
    pub closed spec fn started_at(&self) -> SystemTime {
        self.game.started_at()
    }

    /// A session that has not shown anything yet.
    pub fn new() -> (session: Session)
        ensures
            session@ == SessionState::start(),
    {
        Session { game: Game::new(), stage: Stage::Welcome }
    }

    /// The stage the session is at.
    pub fn stage(&self) -> (stage: Stage)
        ensures
            stage == self@.stage,
            self@.wf(),
    {
        proof {
            use_type_invariant(self);
        }
        self.stage
    }

    /// The number of keys that matched so far.
    pub fn score(&self) -> (score: i32)
        ensures
            score == self@.game.score,
            self@.wf(),
    {
        proof {
            use_type_invariant(self);
        }
        self.game.score()
    }

    /// The number of rounds played so far.
    pub fn rounds_played(&self) -> (rounds: usize)
        ensures
            rounds == self@.game.rounds_played,
            self@.wf(),
    {
        proof {
            use_type_invariant(self);
        }
        self.game.rounds_played()
    }

    /// The time at which the clock of the game was last started.
    pub fn clock_start(&self) -> (start: SystemTime)
        ensures
            start == self.started_at(),
    {
        self.game.clock_start()
    }

    /// Whether the next step draws a character to ask for.
    pub fn draws_prompt(&self) -> (draws: bool)
        ensures
            draws == self@.draws_prompt(),
    {
        proof {
            use_type_invariant(self);
        }
        match self.stage {
            Stage::Starting => true,
            Stage::Round(_) => self.game.rounds_played() + 1 < GAME_DURATION,
            _ => false,
        }
    }

    /// Takes the next step with everything that comes from outside handed
    /// in: the key that was read, the character drawn for the next round,
    /// the time that the system clock shows, and the time that has passed
    /// on the clock of the game. See [`SessionState::step`] for what each
    /// stage does with the key, the character and the reading.
    ///
    /// The clock of the game is started in one step only, the one that
    /// begins the rounds, and it is started at `now`. As the caller takes
    /// that step when the effects of the step before are carried out, the
    /// countdown has then run and its last tick is erased. Every other step
    /// leaves the clock as it is.
    pub fn advance(
        &mut self,
        key: Option<char>,
        prompt: char,
        now: SystemTime,
        reading: Option<u128>,
    ) -> (step: Step)
        ensures
            old(self)@.step(key, prompt, reading).is_met_by(final(self)@, step),
            final(self)@.wf(),
            old(self)@.stage is Starting ==> final(self).started_at() == now,
            !(old(self)@.stage is Starting) ==> final(self).started_at() == old(self).started_at(),
    {
        proof {
            use_type_invariant(&*self);
        }
        let mut game = self.game;
        match self.stage {
            Stage::Welcome => {
                self.stage = Stage::Intro;
                Step { effects: Game::intro_screen(), wait: Wait::Key }
            },
            Stage::Intro => match Game::intro_key(key) {
                Some(effects) => {
                    self.stage = Stage::Countdown;
                    Step { effects, wait: Wait::Nothing }
                },
                None => Step { effects: Vec::new(), wait: Wait::Key },
            },
            Stage::Countdown => {
                self.stage = Stage::Starting;
                Step { effects: Game::countdown(COUNTDOWN_SECONDS), wait: Wait::Nothing }
            },
            Stage::Starting => {
                game.start_clock_at(now);
                let mut effects = game.refresh_score_bar(true);
                let mut ask = Game::round_prompt(prompt);
                effects.append(&mut ask);
                *self = Session { game, stage: Stage::Round(prompt) };
                Step { effects, wait: Wait::Key }
            },
            Stage::Round(asked) => {
                let mut effects = game.play_round(asked, key);
                if game.is_over() {
                    *self = Session { game, stage: Stage::Scoring };
                    Step { effects, wait: Wait::Nothing }
                } else {
                    let mut ask = Game::round_prompt(prompt);
                    effects.append(&mut ask);
                    *self = Session { game, stage: Stage::Round(prompt) };
                    Step { effects, wait: Wait::Key }
                }
            },
            Stage::Scoring => {
                let bonus: i32 = bonus_for_reading(reading);
                let mut effects = Game::bonus_line(bonus);
                let mut total = game.display_final_score(bonus);
                effects.append(&mut total);
                self.stage = Stage::Over;
                Step { effects, wait: Wait::Exit }
            },
            Stage::Over => Step { effects: Vec::new(), wait: Wait::Exit },
        }
    }

    /// Takes the next step. `key` is what the read that the step before
    /// waited for brought back, `None` if it failed; a step that follows no
    /// read ignores it.
    ///
    /// A step that begins a round draws its character at random, the step
    /// that begins the rounds starts the clock of the game at the time the
    /// system clock shows, and the step that shows the bonus reads that
    /// clock. Whatever these bring, the step is the one that
    /// [`Session::advance`] takes with them, a character that is drawn is a
    /// letter or a digit, and no other step touches the clock.
    pub fn step(&mut self, key: Option<char>) -> (step: Step)
        ensures
            exists|prompt: char, reading: Option<u128>|
                {
                    &&& (#[trigger] old(self)@.step(key, prompt, reading)).is_met_by(
                        final(self)@,
                        step,
                    )
                    &&& old(self)@.draws_prompt() ==> is_alphanumeric(prompt)
                },
            final(self)@.wf(),
            !(old(self)@.stage is Starting) ==> final(self).started_at() == old(self).started_at(),
    {
        let prompt = if self.draws_prompt() {
            generate_random_character()
        } else {
            FALLBACK_PROMPT
        };
        let now = match self.stage {
            Stage::Starting => SystemTime::now(),
            _ => self.game.clock_start(),
        };
        let reading = match self.stage {
            Stage::Scoring => self.game.clock_reading(),
            _ => None,
        };
        self.advance(key, prompt, now, reading)
    }
}

/// Every step keeps the stage and the game in line, whatever comes from
/// outside.
pub proof fn lemma_step_keeps_wf(
    state: SessionState,
    key: Option<char>,
    prompt: char,
    reading: Option<u128>,
)
    requires
        state.wf(),
    ensures
        state.step(key, prompt, reading).state.wf(),
{
}

/// However a session is run from its start, with whatever keys, characters
/// and clock readings, it never plays more rounds than a game has, and when
/// it has come to the bonus or beyond it has played exactly that many.
pub proof fn lemma_every_run_plays_all_rounds(inputs: Seq<(Option<char>, char, Option<u128>)>)
    ensures
        SessionState::start().after_steps(inputs).wf(),
        SessionState::start().after_steps(inputs).game.rounds_played <= GAME_DURATION,
        ({
            let end = SessionState::start().after_steps(inputs);
            end.stage is Scoring || end.stage is Over ==> end.game.rounds_played == GAME_DURATION
        }),
    decreases inputs.len(),
{
    if inputs.len() > 0 {
        lemma_every_run_plays_all_rounds(inputs.drop_last());
        let (key, prompt, reading) = inputs.last();
        lemma_step_keeps_wf(
            SessionState::start().after_steps(inputs.drop_last()),
            key,
            prompt,
            reading,
        );
    }
}

/// A session plays every round of the game and no more: once it has left
/// the rounds behind, exactly the full number was played, whatever was
/// asked for and whatever was pressed. A step at a round always plays one,
/// and no other step does.
pub proof fn lemma_session_plays_all_rounds(
    state: SessionState,
    key: Option<char>,
    prompt: char,
    reading: Option<u128>,
)
    requires
        state.wf(),
    ensures
        state.stage is Scoring || state.stage is Over ==> state.game.rounds_played
            == GAME_DURATION,
        state.stage is Round ==> state.step(key, prompt, reading).state.game.rounds_played
            == state.game.rounds_played + 1,
        !(state.stage is Round) ==> state.step(key, prompt, reading).state.game == state.game,
        state.step(key, prompt, reading).state.stage is Scoring ==> state.stage is Round
            && state.game.rounds_played + 1 == GAME_DURATION,
{
}

} // verus!
