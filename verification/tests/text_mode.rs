use wuerfel::die::Die;
use wuerfel::error::DiceError;
use wuerfel::random::RandomSource;
use wuerfel::setup::setup_default_dice;
use wuerfel::state::State;
use wuerfel::text::{TextMode, TextPhase};

const NO_MATCH: &str = "Your input matched with none of the existing dice. Please try again!";
const ROLL_AGAIN: &str = "Do you want to roll again?(y/n)";

fn default_session(seed: u64) -> TextMode {
    let mut state = State::default();
    setup_default_dice(&mut state);
    TextMode::new(state, RandomSource::new(seed))
}

fn rolled_line(session: &TextMode) -> String {
    format!("You rolled a: {}", session.last_roll().expect("a roll was made"))
}

#[test]
fn greeting_lists_the_dice_and_asks_for_a_name() {
    let session = default_session(1);
    assert_eq!(
        session.greeting(),
        vec![
            "Currently available dice: D4, D6, D10, D20".to_string(),
            "Please enter the name of the die you want to use.".to_string(),
        ]
    );
    assert_eq!(session.phase(), TextPhase::ChoosingDie);
    assert!(!session.is_done());
    assert_eq!(session.last_roll(), None);
}

#[test]
fn greeting_of_an_empty_registry_says_none() {
    let session = TextMode::new(State::default(), RandomSource::new(1));
    assert_eq!(session.greeting()[0], "Currently available dice: None");
}

#[test]
fn text_session_scenario() {
    let mut session = default_session(31337);
    let printed = session.feed_line("D6\n").expect("the die has faces");
    assert_eq!(printed.len(), 5);
    assert_eq!(printed[0], "Found die: D6");
    assert_eq!(
        printed[1],
        "You selected: Name: D6\nSymbol: One, Number: 1\nSymbol: Two, Number: 2\nSymbol: Three, Number: 3\nSymbol: Four, Number: 4\nSymbol: Five, Number: 5\nSymbol: Six, Number: 6\n"
    );
    assert_eq!(printed[2], "Throwing the die!");
    assert_eq!(printed[3], rolled_line(&session));
    assert_eq!(printed[4], ROLL_AGAIN);
    let roll = session.last_roll().expect("a roll was made");
    assert!((1..7).contains(&roll));
    assert_eq!(session.phase(), TextPhase::Rolling { low: 1, high: 7, last: roll });
    for answer in ["y\n", "Y\n", "y", " y \r\n"] {
        let printed = session.feed_line(answer).expect("rolling again cannot fail");
        assert_eq!(printed, vec![rolled_line(&session), ROLL_AGAIN.to_string()]);
        let roll = session.last_roll().expect("a roll was made");
        assert!((1..7).contains(&roll));
        assert!(!session.is_done());
    }
    let printed = session.feed_line("n\n").expect("declining cannot fail");
    assert!(printed.is_empty());
    assert!(session.is_done());
    assert_eq!(session.phase(), TextPhase::Done);
}

#[test]
fn unknown_names_are_asked_again() {
    let mut session = default_session(3);
    for line in ["D8\n", "d6\n", "\n", "D 6\n", "D6, D10\n", "y\n", "n\n"] {
        let printed = session.feed_line(line).expect("no die was named");
        assert_eq!(printed, vec![NO_MATCH.to_string()]);
        assert_eq!(session.phase(), TextPhase::ChoosingDie);
        assert_eq!(session.last_roll(), None);
    }
    let printed = session.feed_line("D20\n").expect("the die has faces");
    assert_eq!(printed[0], "Found die: D20");
    let roll = session.last_roll().expect("a roll was made");
    assert_eq!(session.phase(), TextPhase::Rolling { low: 1, high: 21, last: roll });
}

#[test]
fn lines_are_trimmed_before_they_are_looked_up() {
    for line in ["D10", "D10\n", "D10\r\n", "  D10", "\tD10 \n", " \u{a0}D10\u{2003}\n"] {
        let mut session = default_session(3);
        let printed = session.feed_line(line).expect("the die has faces");
        assert_eq!(printed[0], "Found die: D10");
    }
}

#[test]
fn input_is_taken_as_it_is() {
    let mut session = default_session(3);
    let printed = session.feed_input("D10\n").expect("no die was named");
    assert_eq!(printed, vec![NO_MATCH.to_string()]);
    let printed = session.feed_input(" D10").expect("no die was named");
    assert_eq!(printed, vec![NO_MATCH.to_string()]);
    let printed = session.feed_input("D10").expect("the die has faces");
    assert_eq!(printed[0], "Found die: D10");
    let printed = session.feed_input("y ").expect("answers cannot fail");
    assert_eq!(printed, vec![NO_MATCH.to_string()]);
    let printed = session.feed_input("N").expect("answers cannot fail");
    assert!(printed.is_empty());
    assert!(session.is_done());
}

#[test]
fn other_answers_are_asked_again() {
    let mut session = default_session(12);
    session.feed_line("D4\n").expect("the die has faces");
    let phase = session.phase();
    for line in ["yes\n", "no\n", "\n", "D4\n", "yn\n", "j\n", "0\n"] {
        let printed = session.feed_line(line).expect("answers cannot fail");
        assert_eq!(printed, vec![NO_MATCH.to_string()]);
        assert_eq!(session.phase(), phase);
    }
    let printed = session.feed_line("N\n").expect("answers cannot fail");
    assert!(printed.is_empty());
    assert!(session.is_done());
}

#[test]
fn a_finished_session_ignores_input() {
    let mut session = default_session(12);
    session.feed_line("D4\n").expect("the die has faces");
    session.feed_line("n\n").expect("answers cannot fail");
    assert!(session.is_done());
    for line in ["y\n", "n\n", "D6\n", "\n"] {
        let printed = session.feed_line(line).expect("a finished session cannot fail");
        assert!(printed.is_empty());
        assert!(session.is_done());
        assert_eq!(session.last_roll(), None);
    }
}

#[test]
fn session_draws_from_the_random_source() {
    let mut session = default_session(4242);
    let mut generator = oorandom::Rand32::new(4242);
    session.feed_line("D20\n").expect("the die has faces");
    assert_eq!(session.last_roll(), Some(generator.rand_range(1..21)));
    for _ in 0..100 {
        let printed = session.feed_line("y\n").expect("rolling again cannot fail");
        let roll = generator.rand_range(1..21);
        assert_eq!(session.last_roll(), Some(roll));
        assert_eq!(printed[0], format!("You rolled a: {}", roll));
    }
}

#[test]
fn naming_a_die_without_faces_fails() {
    let mut state = State::default();
    state.add_die(Die::new("blank".to_string()));
    setup_default_dice(&mut state);
    let mut session = TextMode::new(state, RandomSource::new(6));
    assert_eq!(session.feed_line("blank\n"), Err(DiceError::UnconfiguredDie));
    assert_eq!(session.phase(), TextPhase::ChoosingDie);
    let printed = session.feed_line("D4\n").expect("the die has faces");
    assert_eq!(printed[0], "Found die: D4");
}

#[test]
fn the_first_die_of_a_name_is_chosen() {
    let mut state = State::default();
    setup_default_dice(&mut state);
    setup_default_dice(&mut state);
    let mut session = TextMode::new(state, RandomSource::new(6));
    assert_eq!(
        session.greeting()[0],
        "Currently available dice: D4, D6, D10, D20, D4, D6, D10, D20"
    );
    session.feed_line("D6\n").expect("the die has faces");
    let roll = session.last_roll().expect("a roll was made");
    assert_eq!(session.phase(), TextPhase::Rolling { low: 1, high: 7, last: roll });
}
