use std::time::{Duration, SystemTime};
use typing_game::bonus::bonus_after;
use typing_game::effect::Effect;
use typing_game::message::Message;
use typing_game::session::{Session, Stage, Step, Wait};

fn lines(step: &Step) -> Vec<String> {
    let mut out: Vec<String> = Vec::new();
    for effect in step.effects.iter() {
        if let Effect::Print(message) = effect {
            out.push(message.render());
        }
    }
    out
}

fn through_the_countdown(session: &mut Session) {
    session.advance(None, 'x', SystemTime::now(), None);
    session.advance(Some('\n'), 'x', SystemTime::now(), None);
    session.advance(None, 'x', SystemTime::now(), None);
}

fn play_scripted(hits: usize, elapsed_ms: Option<u128>) -> (Session, Step) {
    let mut session = Session::new();
    through_the_countdown(&mut session);
    session.advance(None, 'a', SystemTime::now(), None);
    let mut round: usize = 0;
    while round < 10 {
        let key = if round < hits { Some('A') } else { Some('b') };
        session.advance(key, 'a', SystemTime::now(), None);
        round += 1;
    }
    assert_eq!(session.stage(), Stage::Scoring);
    let last = session.advance(None, 'a', SystemTime::now(), elapsed_ms);
    (session, last)
}

#[test]
fn new_session_has_shown_nothing() {
    let session = Session::new();
    assert_eq!(session.stage(), Stage::Welcome);
    assert_eq!(session.score(), 0);
    assert_eq!(session.rounds_played(), 0);
    assert!(!session.draws_prompt());
}

#[test]
fn first_step_shows_the_welcome_screen_and_waits_for_a_key() {
    let mut session = Session::new();
    let step = session.advance(None, 'x', SystemTime::now(), None);
    assert_eq!(
        step,
        Step {
            effects: vec![Effect::Print(Message::Welcome), Effect::Print(Message::Ready)],
            wait: Wait::Key,
        }
    );
    assert_eq!(session.stage(), Stage::Intro);
}

#[test]
fn intro_waits_until_enter() {
    let mut session = Session::new();
    session.advance(None, 'x', SystemTime::now(), None);
    for key in [Some('a'), None, Some(' '), Some('\r'), None] {
        let step = session.advance(key, 'x', SystemTime::now(), None);
        assert_eq!(step, Step { effects: vec![], wait: Wait::Key });
        assert_eq!(session.stage(), Stage::Intro);
    }
    let step = session.advance(Some('\n'), 'x', SystemTime::now(), None);
    assert_eq!(
        step,
        Step {
            effects: vec![Effect::ClearLastLines(1), Effect::ClearLastLines(1)],
            wait: Wait::Nothing,
        }
    );
    assert_eq!(session.stage(), Stage::Countdown);
}

#[test]
fn countdown_runs_three_ticks_without_waiting_for_a_key() {
    let mut session = Session::new();
    session.advance(None, 'x', SystemTime::now(), None);
    session.advance(Some('\n'), 'x', SystemTime::now(), None);
    let step = session.advance(None, 'x', SystemTime::now(), None);
    assert_eq!(
        step,
        Step {
            effects: vec![
                Effect::Print(Message::Tick(3)),
                Effect::Sleep(1),
                Effect::ClearLastLines(1),
                Effect::Print(Message::Tick(2)),
                Effect::Sleep(1),
                Effect::ClearLastLines(1),
                Effect::Print(Message::Tick(1)),
                Effect::Sleep(1),
                Effect::ClearLastLines(1),
            ],
            wait: Wait::Nothing,
        }
    );
    assert_eq!(session.stage(), Stage::Starting);
    assert!(session.draws_prompt());
}

#[test]
fn rounds_begin_with_the_score_bar_and_the_first_prompt() {
    let mut session = Session::new();
    through_the_countdown(&mut session);
    let step = session.advance(None, 'k', SystemTime::now(), None);
    assert_eq!(
        step,
        Step {
            effects: vec![
                Effect::Print(Message::ScoreBar(0)),
                Effect::Print(Message::Press('k')),
            ],
            wait: Wait::Key,
        }
    );
    assert_eq!(session.stage(), Stage::Round('k'));
    assert_eq!(session.rounds_played(), 0);
}

#[test]
fn hit_updates_the_bar_and_asks_for_the_next_character() {
    let mut session = Session::new();
    through_the_countdown(&mut session);
    session.advance(None, 'k', SystemTime::now(), None);
    let step = session.advance(Some('K'), 'm', SystemTime::now(), None);
    assert_eq!(
        step,
        Step {
            effects: vec![
                Effect::ClearLastLines(1),
                Effect::ClearLastLines(1),
                Effect::Print(Message::ScoreBar(1)),
                Effect::Print(Message::Press('m')),
            ],
            wait: Wait::Key,
        }
    );
    assert_eq!(session.score(), 1);
    assert_eq!(session.rounds_played(), 1);
    assert_eq!(session.stage(), Stage::Round('m'));
}

#[test]
fn miss_only_removes_the_prompt_and_asks_for_the_next_character() {
    let mut session = Session::new();
    through_the_countdown(&mut session);
    session.advance(None, 'k', SystemTime::now(), None);
    let step = session.advance(Some('j'), 'm', SystemTime::now(), None);
    assert_eq!(
        step,
        Step {
            effects: vec![Effect::ClearLastLines(1), Effect::Print(Message::Press('m'))],
            wait: Wait::Key,
        }
    );
    assert_eq!(session.score(), 0);
    assert_eq!(session.rounds_played(), 1);
}

#[test]
fn failed_read_misses_the_round() {
    let mut session = Session::new();
    through_the_countdown(&mut session);
    session.advance(None, 'k', SystemTime::now(), None);
    let step = session.advance(None, 'm', SystemTime::now(), None);
    assert_eq!(
        step,
        Step { effects: vec![Effect::Print(Message::Press('m'))], wait: Wait::Key }
    );
    assert_eq!(session.score(), 0);
    assert_eq!(session.rounds_played(), 1);
}

#[test]
fn exactly_ten_rounds_are_played_whatever_the_keys() {
    let keys: [Option<char>; 10] = [
        None,
        Some('a'),
        Some('A'),
        Some('\n'),
        Some('b'),
        None,
        None,
        Some('a'),
        Some('9'),
        Some('z'),
    ];
    let mut session = Session::new();
    through_the_countdown(&mut session);
    session.advance(None, 'a', SystemTime::now(), None);
    let mut played: usize = 0;
    for key in keys {
        assert_eq!(session.stage(), Stage::Round('a'));
        assert_eq!(session.rounds_played(), played);
        let step = session.advance(key, 'a', SystemTime::now(), None);
        played += 1;
        if played < 10 {
            assert_eq!(step.wait, Wait::Key);
            assert!(session.draws_prompt() == (played < 9));
        } else {
            assert_eq!(step.wait, Wait::Nothing);
        }
    }
    assert_eq!(session.stage(), Stage::Scoring);
    assert_eq!(session.rounds_played(), 10);
    assert_eq!(session.score(), 3);
}

#[test]
fn last_round_asks_for_no_further_character() {
    let mut session = Session::new();
    through_the_countdown(&mut session);
    session.advance(None, 'a', SystemTime::now(), None);
    let mut round: usize = 0;
    while round < 9 {
        session.advance(Some('x'), 'a', SystemTime::now(), None);
        round += 1;
    }
    assert!(!session.draws_prompt());
    let step = session.advance(Some('a'), 'q', SystemTime::now(), None);
    assert_eq!(
        step,
        Step {
            effects: vec![
                Effect::ClearLastLines(1),
                Effect::ClearLastLines(1),
                Effect::Print(Message::ScoreBar(1)),
            ],
            wait: Wait::Nothing,
        }
    );
    assert_eq!(session.stage(), Stage::Scoring);
}

#[test]
fn no_hits_and_no_time_passed_earns_the_full_bonus() {
    let (session, last) = play_scripted(0, Some(0));
    assert_eq!(session.score(), 0);
    assert_eq!(bonus_after(0), 10);
    assert_eq!(
        last,
        Step {
            effects: vec![
                Effect::Print(Message::Bonus(10)),
                Effect::Print(Message::FinalScore(10)),
            ],
            wait: Wait::Exit,
        }
    );
    assert_eq!(lines(&last), vec!["Bonus: 10 points", "You have scored 10 points!"]);
}

#[test]
fn no_hits_and_a_bonus_of_nine_scores_nine_points() {
    for elapsed in [1u128, 500, 1000] {
        let (session, last) = play_scripted(0, Some(elapsed));
        assert_eq!(session.score(), 0);
        assert_eq!(bonus_after(elapsed), 9);
        assert_eq!(
            last.effects,
            vec![Effect::Print(Message::Bonus(9)), Effect::Print(Message::FinalScore(9))]
        );
        assert_eq!(lines(&last), vec!["Bonus: 9 points", "You have scored 9 points!"]);
    }
}

#[test]
fn one_hit_and_no_bonus_scores_one_point() {
    for elapsed in [10000u128, 10001, 3_600_000] {
        let (session, last) = play_scripted(1, Some(elapsed));
        assert_eq!(session.score(), 1);
        assert_eq!(bonus_after(elapsed), 0);
        assert_eq!(
            last.effects,
            vec![Effect::Print(Message::Bonus(0)), Effect::Print(Message::FinalScore(1))]
        );
        assert_eq!(lines(&last), vec!["Bonus: 0 points", "You have scored 1 point!"]);
        assert_eq!(last.wait, Wait::Exit);
    }
}

#[test]
fn no_hits_and_a_bonus_of_one_reads_in_the_singular_twice() {
    let (_, last) = play_scripted(0, Some(9000));
    assert_eq!(lines(&last), vec!["Bonus: 1 point", "You have scored 1 point!"]);
}

#[test]
fn failed_clock_counts_as_a_closed_window() {
    let (_, last) = play_scripted(4, None);
    assert_eq!(lines(&last), vec!["Bonus: 0 points", "You have scored 4 points!"]);
}

#[test]
fn total_is_score_plus_bonus_for_every_score() {
    let mut hits: usize = 0;
    while hits <= 10 {
        for elapsed in [0u128, 1, 2999, 3000, 3001, 9000, 9001, 20000] {
            let (session, last) = play_scripted(hits, Some(elapsed));
            let bonus = bonus_after(elapsed);
            assert_eq!(session.score() as usize, hits);
            assert_eq!(
                last.effects,
                vec![
                    Effect::Print(Message::Bonus(bonus)),
                    Effect::Print(Message::FinalScore(hits as i64 + bonus as i64)),
                ]
            );
        }
        hits += 1;
    }
}

#[test]
fn finished_session_stays_finished() {
    let (mut session, _) = play_scripted(3, Some(5000));
    assert_eq!(session.stage(), Stage::Over);
    for key in [None, Some('\n'), Some('a')] {
        let step = session.advance(key, 'a', SystemTime::now(), Some(0));
        assert_eq!(step, Step { effects: vec![], wait: Wait::Exit });
        assert_eq!(session.stage(), Stage::Over);
        assert_eq!(session.score(), 3);
        assert_eq!(session.rounds_played(), 10);
    }
}

#[test]
fn stepping_draws_letters_and_digits_and_reads_the_clock() {
    let mut session = Session::new();
    assert_eq!(session.step(None).wait, Wait::Key);
    assert_eq!(session.step(Some('\n')).wait, Wait::Nothing);
    assert_eq!(session.step(None).wait, Wait::Nothing);
    let first = session.step(None);
    assert_eq!(first.wait, Wait::Key);
    let mut rounds: usize = 0;
    loop {
        let asked = match session.stage() {
            Stage::Round(asked) => asked,
            _ => break,
        };
        assert!(asked.is_ascii_alphanumeric());
        let before = session.score();
        let step = session.step(Some(asked.to_ascii_uppercase()));
        rounds += 1;
        assert_eq!(session.score(), before + 1);
        assert_eq!(step.effects[2], Effect::Print(Message::ScoreBar(before + 1)));
        if rounds < 10 {
            assert_eq!(step.effects[3], Effect::Print(Message::Press(match session.stage() {
                Stage::Round(next) => next,
                _ => panic!("a round follows"),
            })));
        }
    }
    assert_eq!(rounds, 10);
    assert_eq!(session.stage(), Stage::Scoring);
    let last = session.step(None);
    assert_eq!(last.wait, Wait::Exit);
    assert_eq!(last.effects.len(), 2);
    let bonus = match last.effects[0] {
        Effect::Print(Message::Bonus(bonus)) => bonus,
        _ => panic!("the bonus comes first"),
    };
    assert!(0 <= bonus && bonus <= 10);
    assert_eq!(last.effects[1], Effect::Print(Message::FinalScore(10 + bonus as i64)));
    assert_eq!(session.stage(), Stage::Over);
}

#[test]
fn stepping_with_wrong_keys_scores_nothing() {
    let mut session = Session::new();
    session.step(None);
    session.step(Some('\n'));
    session.step(None);
    session.step(None);
    let mut rounds: usize = 0;
    while let Stage::Round(_) = session.stage() {
        let step = session.step(Some('\n'));
        rounds += 1;
        assert_eq!(step.effects[0], Effect::ClearLastLines(1));
        assert_eq!(session.score(), 0);
    }
    assert_eq!(rounds, 10);
    let last = session.step(None);
    let bonus = match last.effects[0] {
        Effect::Print(Message::Bonus(bonus)) => bonus,
        _ => panic!("the bonus comes first"),
    };
    assert_eq!(last.effects[1], Effect::Print(Message::FinalScore(bonus as i64)));
}

#[test]
fn clock_is_started_by_the_step_that_begins_the_rounds_and_by_no_other() {
    let created = SystemTime::now();
    let elsewhen = created + Duration::from_secs(1000);
    let begin = created + Duration::from_secs(77);
    let mut session = Session::new();
    let at_first = session.clock_start();
    session.advance(None, 'x', elsewhen, None);
    session.advance(Some('a'), 'x', elsewhen, None);
    session.advance(Some('\n'), 'x', elsewhen, None);
    session.advance(None, 'x', elsewhen, None);
    assert_eq!(session.stage(), Stage::Starting);
    assert_eq!(session.clock_start(), at_first);
    session.advance(None, 'a', begin, None);
    assert_eq!(session.clock_start(), begin);
    let mut round: usize = 0;
    while round < 10 {
        let key = if round % 2 == 0 { Some('a') } else { None };
        session.advance(key, 'a', elsewhen, None);
        assert_eq!(session.clock_start(), begin);
        round += 1;
    }
    session.advance(None, 'a', elsewhen, Some(0));
    assert_eq!(session.stage(), Stage::Over);
    assert_eq!(session.clock_start(), begin);
    session.advance(None, 'a', elsewhen, Some(0));
    assert_eq!(session.clock_start(), begin);
}

#[test]
fn stepping_starts_the_clock_when_the_rounds_begin() {
    let mut session = Session::new();
    session.step(None);
    session.step(Some('\n'));
    session.step(None);
    let before = SystemTime::now();
    session.step(None);
    let after = SystemTime::now();
    let start = session.clock_start();
    assert!(before <= start && start <= after);
    while let Stage::Round(asked) = session.stage() {
        session.step(Some(asked));
        assert_eq!(session.clock_start(), start);
    }
    session.step(None);
    assert_eq!(session.clock_start(), start);
}
