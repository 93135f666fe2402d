use wuerfel::controller::{App, InputEvent, Key};
use wuerfel::die::Die;
use wuerfel::error::DiceError;
use wuerfel::random::RandomSource;
use wuerfel::setup::{configure_die, setup_default_dice};
use wuerfel::state::State;

fn default_app(seed: u64) -> App {
    let mut state = State::default();
    setup_default_dice(&mut state);
    App::new(state, RandomSource::new(seed))
}

fn empty_app() -> App {
    App::new(State::default(), RandomSource::new(1))
}

fn selected_name(app: &App) -> Option<&str> {
    app.selected_die().map(|die| die.get_name())
}

#[test]
fn new_controller_has_no_selection_and_no_roll() {
    let app = default_app(1);
    assert_eq!(app.current_index(), None);
    assert_eq!(app.current_die_roll(), None);
    assert!(app.selected_die().is_none());
    assert!(!app.should_exit());
    assert_eq!(app.state().len(), 4);
}

#[test]
fn next_from_unselected_lands_on_the_first_die() {
    let mut app = default_app(1);
    app.next_die();
    assert_eq!(app.current_index(), Some(0));
    assert_eq!(selected_name(&app), Some("D4"));
}

#[test]
fn previous_from_unselected_lands_on_the_last_die() {
    let mut app = default_app(1);
    app.previous_die();
    assert_eq!(app.current_index(), Some(3));
    assert_eq!(selected_name(&app), Some("D20"));
}

#[test]
fn next_wraps_from_the_last_die_to_the_first() {
    let mut app = default_app(1);
    app.previous_die();
    assert_eq!(app.current_index(), Some(3));
    app.next_die();
    assert_eq!(app.current_index(), Some(0));
    let mut visited = Vec::new();
    for _ in 0..9 {
        app.next_die();
        visited.push(app.current_index());
    }
    assert_eq!(
        visited,
        vec![Some(1), Some(2), Some(3), Some(0), Some(1), Some(2), Some(3), Some(0), Some(1)]
    );
}

#[test]
fn previous_wraps_from_the_first_die_to_the_last() {
    let mut app = default_app(1);
    app.next_die();
    assert_eq!(app.current_index(), Some(0));
    app.previous_die();
    assert_eq!(app.current_index(), Some(3));
    let mut visited = Vec::new();
    for _ in 0..9 {
        app.previous_die();
        visited.push(app.current_index());
    }
    assert_eq!(
        visited,
        vec![Some(2), Some(1), Some(0), Some(3), Some(2), Some(1), Some(0), Some(3), Some(2)]
    );
}

#[test]
fn selection_on_an_empty_registry_stays_unselected() {
    let mut app = empty_app();
    app.next_die();
    assert_eq!(app.current_index(), None);
    app.previous_die();
    assert_eq!(app.current_index(), None);
    app.next_die();
    app.next_die();
    app.previous_die();
    assert_eq!(app.current_index(), None);
    assert!(app.selected_die().is_none());
}

#[test]
fn selection_on_a_registry_of_one_die_stays_on_it() {
    let mut state = State::default();
    let mut die = Die::new("only".to_string());
    configure_die(&mut die, 1..3).expect("the faces can be placed");
    state.add_die(die);
    let mut app = App::new(state, RandomSource::new(3));
    app.next_die();
    assert_eq!(app.current_index(), Some(0));
    app.next_die();
    assert_eq!(app.current_index(), Some(0));
    app.previous_die();
    assert_eq!(app.current_index(), Some(0));
    let mut fresh_state = State::default();
    fresh_state.add_die(Die::new("alone".to_string()));
    let mut fresh = App::new(fresh_state, RandomSource::new(3));
    fresh.previous_die();
    assert_eq!(fresh.current_index(), Some(0));
}

#[test]
fn roll_while_unselected_changes_nothing() {
    let mut app = default_app(9);
    assert_eq!(app.roll_die(), Ok(()));
    assert_eq!(app.current_die_roll(), None);
    assert_eq!(app.current_index(), None);
    app.show_roll(3);
    assert_eq!(app.roll_die(), Ok(()));
    assert_eq!(app.current_die_roll(), Some(3));
    let mut empty = empty_app();
    assert_eq!(empty.roll_die(), Ok(()));
    assert_eq!(empty.current_die_roll(), None);
}

#[test]
fn roll_shows_a_face_of_the_selected_die() {
    for seed in 0..50 {
        let mut app = default_app(seed);
        let sides = [4u32, 6, 10, 20];
        for side in sides {
            app.next_die();
            for _ in 0..20 {
                assert_eq!(app.roll_die(), Ok(()));
                let roll = app.current_die_roll().expect("a roll was made");
                assert!(roll >= 1);
                assert!(roll <= side);
            }
        }
    }
}

#[test]
fn roll_draws_from_the_random_source() {
    let mut app = default_app(777);
    let mut generator = oorandom::Rand32::new(777);
    app.next_die();
    app.next_die();
    for _ in 0..100 {
        assert_eq!(app.roll_die(), Ok(()));
        assert_eq!(app.current_die_roll(), Some(generator.rand_range(1..7)));
    }
    app.previous_die();
    assert_eq!(app.roll_die(), Ok(()));
    assert_eq!(app.current_die_roll(), Some(generator.rand_range(1..5)));
}

#[test]
fn roll_of_a_die_without_faces_fails_and_changes_nothing() {
    let mut state = State::default();
    state.add_die(Die::new("blank".to_string()));
    let mut app = App::new(state, RandomSource::new(5));
    app.next_die();
    app.show_roll(2);
    assert_eq!(app.roll_die(), Err(DiceError::UnconfiguredDie));
    assert_eq!(app.current_die_roll(), Some(2));
    assert_eq!(app.current_index(), Some(0));
    assert_eq!(app.handle_key_event(Key::Enter), Err(DiceError::UnconfiguredDie));
    assert_eq!(
        app.handle_events(InputEvent::Press(Key::Enter)),
        Err(DiceError::UnconfiguredDie)
    );
    assert_eq!(app.handle_key_event(Key::Left), Ok(()));
}

#[test]
fn navigation_keeps_the_last_roll() {
    let mut app = default_app(21);
    app.next_die();
    app.roll_die().expect("the die has faces");
    let roll = app.current_die_roll();
    assert!(roll.is_some());
    app.next_die();
    assert_eq!(app.current_die_roll(), roll);
    app.previous_die();
    app.previous_die();
    assert_eq!(app.current_die_roll(), roll);
}

#[test]
fn select_and_roll_scenario() {
    let mut app = default_app(2023);
    app.next_die();
    assert_eq!(app.current_index(), Some(0));
    assert_eq!(selected_name(&app), Some("D4"));
    app.roll_die().expect("the die has faces");
    let roll = app.current_die_roll().expect("a roll was made");
    assert!([1, 2, 3, 4].contains(&roll));
    app.next_die();
    assert_eq!(app.current_index(), Some(1));
    assert_eq!(selected_name(&app), Some("D6"));
    app.roll_die().expect("the die has faces");
    let roll = app.current_die_roll().expect("a roll was made");
    assert!((1..=6).contains(&roll));
    app.previous_die();
    assert_eq!(app.current_index(), Some(0));
    assert_eq!(selected_name(&app), Some("D4"));
}

#[test]
fn keys_drive_the_controller() {
    let mut app = default_app(4);
    assert_eq!(app.handle_key_event(Key::Right), Ok(()));
    assert_eq!(app.current_index(), Some(0));
    assert_eq!(app.handle_key_event(Key::Right), Ok(()));
    assert_eq!(app.current_index(), Some(1));
    assert_eq!(app.handle_key_event(Key::Left), Ok(()));
    assert_eq!(app.current_index(), Some(0));
    assert_eq!(app.handle_key_event(Key::Left), Ok(()));
    assert_eq!(app.current_index(), Some(3));
    assert_eq!(app.current_die_roll(), None);
    assert_eq!(app.handle_key_event(Key::Enter), Ok(()));
    let roll = app.current_die_roll().expect("a roll was made");
    assert!((1..=20).contains(&roll));
    assert!(!app.should_exit());
}

#[test]
fn other_keys_do_nothing() {
    let mut app = default_app(4);
    app.next_die();
    for key in [Key::Other, Key::Char('x'), Key::Char('y'), Key::Char(' '), Key::Char('\n')] {
        assert_eq!(app.handle_key_event(key), Ok(()));
        assert_eq!(app.current_index(), Some(0));
        assert_eq!(app.current_die_roll(), None);
        assert!(!app.should_exit());
    }
}

#[test]
fn quit_keys_ask_to_leave() {
    for key in [Key::Char('q'), Key::Char('Q'), Key::Esc] {
        let mut app = default_app(4);
        app.next_die();
        assert!(!app.should_exit());
        assert_eq!(app.handle_key_event(key), Ok(()));
        assert!(app.should_exit());
        assert_eq!(app.current_index(), Some(0));
        assert_eq!(app.current_die_roll(), None);
    }
    let mut app = empty_app();
    app.exit();
    assert!(app.should_exit());
}

#[test]
fn only_key_presses_count_as_events() {
    let mut app = default_app(4);
    assert_eq!(app.handle_events(InputEvent::Other), Ok(()));
    assert_eq!(app.current_index(), None);
    assert!(!app.should_exit());
    assert_eq!(app.handle_events(InputEvent::Press(Key::Right)), Ok(()));
    assert_eq!(app.current_index(), Some(0));
    assert_eq!(app.handle_events(InputEvent::Press(Key::Enter)), Ok(()));
    assert!(app.current_die_roll().is_some());
    assert_eq!(app.handle_events(InputEvent::Press(Key::Esc)), Ok(()));
    assert!(app.should_exit());
}

fn lines_of(app: &App) -> Vec<(String, String)> {
    app.render()
        .lines
        .iter()
        .map(|line| (line.label.to_string(), line.value.clone()))
        .collect()
}

fn hints_of(app: &App) -> Vec<(String, String)> {
    app.render()
        .hints
        .iter()
        .map(|hint| (hint.action.to_string(), hint.key.to_string()))
        .collect()
}

fn pair(left: &str, right: &str) -> (String, String) {
    (left.to_string(), right.to_string())
}

#[test]
fn screen_of_a_fresh_controller() {
    let app = default_app(8);
    assert_eq!(app.render().title, " wuerfel App ");
    assert_eq!(lines_of(&app), vec![pair("Dice: ", "D4, D6, D10, D20")]);
    assert_eq!(
        hints_of(&app),
        vec![pair(" Previous ", "<Left>"), pair(" Next ", "<Right>"), pair(" Quit ", "<Q> ")]
    );
}

#[test]
fn screen_of_an_empty_registry() {
    let app = empty_app();
    assert_eq!(lines_of(&app), vec![pair("Dice: ", "None")]);
    assert_eq!(hints_of(&app).len(), 3);
}

#[test]
fn screen_shows_selection_and_roll() {
    let mut app = default_app(8);
    app.next_die();
    app.next_die();
    assert_eq!(
        lines_of(&app),
        vec![pair("Dice: ", "D4, D6, D10, D20"), pair("Currently selected die: ", "D6")]
    );
    assert_eq!(
        hints_of(&app),
        vec![
            pair(" Previous ", "<Left>"),
            pair(" Roll die ", "<Enter>"),
            pair(" Next ", "<Right>"),
            pair(" Quit ", "<Q> "),
        ]
    );
    app.roll_die().expect("the die has faces");
    let roll = app.current_die_roll().expect("a roll was made");
    assert_eq!(
        lines_of(&app),
        vec![
            pair("Dice: ", "D4, D6, D10, D20"),
            pair("Currently selected die: ", "D6"),
            pair("Current roll: ", &roll.to_string()),
        ]
    );
}

#[test]
fn screen_shows_a_roll_without_a_selection() {
    let mut app = default_app(8);
    app.show_roll(17);
    assert_eq!(
        lines_of(&app),
        vec![pair("Dice: ", "D4, D6, D10, D20"), pair("Current roll: ", "17")]
    );
    assert_eq!(hints_of(&app).len(), 3);
}
