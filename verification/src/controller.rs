//! The selection and roll controller: which die of the registry is
//! selected, how the selection moves, and what the last roll was.

use vstd::prelude::*;

use crate::die::{Die, DieModel};
use crate::error::DiceError;
use crate::random::{drawn_value, state_after_draw, RandomSource};
use crate::screen::{
    footer, key_hints, Screen, ScreenModel, TextLine, DICE_LABEL, NO_DICE, ROLL_LABEL,
    SELECTED_LABEL, TITLE,
};
use crate::state::{summary, State};
use crate::strings::{decimal, decimal_text};

verus! {

/// A key that the controller can be told about.
#[derive(Clone, Copy, Debug, PartialEq, Eq, Structural)]
pub enum Key {
    /// A key that produces a character.
    Char(char),
    /// The escape key.
    Esc,
    /// The left arrow.
    Left,
    /// The right arrow.
    Right,
    /// The enter key.
    Enter,
    /// Any other key.
    Other,
}

/// Something that happened at the terminal.
#[derive(Clone, Copy, Debug, PartialEq, Eq, Structural)]
pub enum InputEvent {
    /// A key was pressed.
    Press(Key),
    /// Anything else: a key was released or repeated, the terminal was
    /// resized, the mouse moved.
    Other,
}

/// The selection after "next" on a registry of `count` dice: the first die
/// when nothing was selected or the last die was, else the one after the
/// selected die. An empty registry leaves the selection alone.
pub open spec fn next_index(selected: Option<int>, count: int) -> Option<int> {
    if count <= 0 {
        selected
    } else {
        match selected {
            None => Some(0),
            Some(index) => if index + 1 >= count {
                Some(0)
            } else {
                Some(index + 1)
            },
        }
    }
}

/// The selection after "previous" on a registry of `count` dice: the last
/// die when nothing was selected or the first die was, else the one before
/// the selected die. An empty registry leaves the selection alone.
pub open spec fn previous_index(selected: Option<int>, count: int) -> Option<int> {
    if count <= 0 {
        selected
    } else {
        match selected {
            None => Some(count - 1),
            Some(index) => if index <= 0 {
                Some(count - 1)
            } else {
                Some(index - 1)
            },
        }
    }
}

/// What a controller is, mathematically.
pub struct AppModel {
    /// The dice of the registry, in order.
    pub dice: Seq<DieModel>,
    /// The position of the selected die, if one is selected.
    pub selected: Option<int>,
    /// The number that the last roll showed, if there was a roll.
    pub last_roll: Option<u32>,
    /// The state of the random source.
    pub random: (u64, u64),
    /// Whether the user has asked to leave.
    pub exit: bool,
}

impl AppModel {
    /// The selection, if there is one, points at a die of the registry.
    pub open spec fn wf(self) -> bool {
        self.selected matches Some(index) ==> 0 <= index < self.dice.len()
    }

    /// The selected die, if one is selected.
    pub open spec fn selected_die(self) -> Option<DieModel> {
        match self.selected {
            Some(index) => Some(self.dice[index]),
            None => None,
        }
    }

    /// The controller after "select next".
    pub open spec fn next(self) -> AppModel {
        AppModel { selected: next_index(self.selected, self.dice.len() as int), ..self }
    }

    /// The controller after "select previous".
    pub open spec fn previous(self) -> AppModel {
        AppModel { selected: previous_index(self.selected, self.dice.len() as int), ..self }
    }

    /// The controller after `value` was rolled: it is the last roll, and
    /// nothing else has changed.
    pub open spec fn showing(self, value: u32) -> AppModel {
        AppModel { last_roll: Some(value), ..self }
    }

    /// Whether "roll" fails: a die is selected, and it has no faces.
    pub open spec fn roll_fails(self) -> bool {
        self.selected_die() matches Some(die) && die.range() is None
    }

    /// The controller after "roll". With a die selected that has faces, the
    /// random source draws once from the range of the die, and the number
    /// drawn becomes the last roll. Otherwise nothing changes.
    pub open spec fn rolled(self) -> AppModel {
        match self.selected_die() {
            Some(die) => match die.range() {
                Some((low, high)) => AppModel {
                    last_roll: Some(drawn_value(self.random, low as u32, high as u32)),
                    random: state_after_draw(self.random, low as u32, high as u32),
                    ..self
                },
                None => self,
            },
            None => self,
        }
    }

    /// Whether `roll` holds a number that the selected die can show.
    pub open spec fn shows_roll_of_selected(self, roll: Option<u32>) -> bool {
        &&& self.selected_die() matches Some(die)
        &&& roll matches Some(value)
        &&& die.can_roll(value as int)
    }

    /// The lines of the panel: the summary of the registry, then the name
    /// of the selected die if one is selected, then the last roll if there
    /// was one.
    pub open spec fn lines(self) -> Seq<(Seq<char>, Seq<char>)> {
        seq![
            (
                DICE_LABEL@,
                match summary(self.dice) {
                    Some(text) => text,
                    None => NO_DICE@,
                },
            ),
        ] + match self.selected_die() {
            Some(die) => seq![(SELECTED_LABEL@, die.name)],
            None => seq![],
        } + match self.last_roll {
            Some(value) => seq![(ROLL_LABEL@, decimal(value as nat))],
            None => seq![],
        }
    }

    /// What the terminal front end shows of the controller.
    pub open spec fn screen(self) -> ScreenModel {
        ScreenModel {
            title: TITLE@,
            lines: self.lines(),
            hints: key_hints(self.selected is Some),
        }
    }

    /// The controller after "quit".
    pub open spec fn quit(self) -> AppModel {
        AppModel { exit: true, ..self }
    }

    /// The controller after `key` was pressed: `q`, `Q` and Esc quit, Left
    /// selects the previous die, Right the next one, Enter rolls, and every
    /// other key does nothing.
    pub open spec fn after_key(self, key: Key) -> AppModel {
        match key {
            Key::Char(c) => if c == 'q' || c == 'Q' {
                self.quit()
            } else {
                self
            },
            Key::Esc => self.quit(),
            Key::Left => self.previous(),
            Key::Right => self.next(),
            Key::Enter => self.rolled(),
            Key::Other => self,
        }
    }

    /// The controller after `event`: only key presses count.
    pub open spec fn after_event(self, event: InputEvent) -> AppModel {
        match event {
            InputEvent::Press(key) => self.after_key(key),
            InputEvent::Other => self,
        }
    }
}

/// The controller after "select next" was applied `times` times.
pub open spec fn next_times(app: AppModel, times: nat) -> AppModel
    decreases times,
{
    if times == 0 {
        app
    } else {
        next_times(app, (times - 1) as nat).next()
    }
}

/// The controller after "select previous" was applied `times` times.
pub open spec fn previous_times(app: AppModel, times: nat) -> AppModel
    decreases times,
{
    if times == 0 {
        app
    } else {
        previous_times(app, (times - 1) as nat).previous()
    }
}

/// From "nothing selected", on a registry that has dice, "select next" lands
/// on the first die and "select previous" on the last one.
pub proof fn lemma_first_selection(app: AppModel)
    requires
        app.selected is None,
        app.dice.len() > 0,
    ensures
        app.next().selected == Some(0int),
        app.previous().selected == Some(app.dice.len() - 1),
{
}

/// Selection goes round: "select next" on the last die lands on the first,
/// and "select previous" on the first die lands on the last.
pub proof fn lemma_selection_wraps(app: AppModel)
    requires
        app.wf(),
        app.dice.len() > 0,
    ensures
        app.selected == Some(app.dice.len() - 1) ==> app.next().selected == Some(0int),
        app.selected == Some(0int) ==> app.previous().selected == Some(app.dice.len() - 1),
{
}

/// With the die at `index` selected, "select next" applied `times` times
/// selects the die `times` places further on, counted round the registry,
/// and "select previous" the die `times` places back.
pub proof fn lemma_selection_repeated(app: AppModel, index: int, times: nat)
    requires
        app.wf(),
        app.selected == Some(index),
    ensures
        next_times(app, times) == (AppModel {
            selected: Some((index + times) % (app.dice.len() as int)),
            ..app
        }),
        previous_times(app, times) == (AppModel {
            selected: Some((index - times) % (app.dice.len() as int)),
            ..app
        }),
    decreases times,
{
    let count = app.dice.len() as int;
    if times == 0 {
        assert(index % count == index) by (nonlinear_arith)
            requires
                0 <= index < count,
        ;
    } else {
        lemma_selection_repeated(app, index, (times - 1) as nat);
        let forward = (index + times - 1) % count;
        let backward = (index - (times - 1)) % count;
        assert(0 <= forward < count && 0 <= backward < count) by (nonlinear_arith)
            requires
                forward == (index + times - 1) % count,
                backward == (index - (times - 1)) % count,
                count > 0,
        ;
        assert((index + times) % count == if forward + 1 >= count {
            0
        } else {
            forward + 1
        }) by (nonlinear_arith)
            requires
                forward == (index + times - 1) % count,
                count > 0,
        ;
        assert((index - times) % count == if backward <= 0 {
            count - 1
        } else {
            backward - 1
        }) by (nonlinear_arith)
            requires
                backward == (index - (times - 1)) % count,
                count > 0,
        ;
    }
}

/// "Select previous" undoes "select next", and the other way round, once a
/// die is selected.
pub proof fn lemma_next_previous_cancel(app: AppModel)
    requires
        app.wf(),
        app.selected is Some,
    ensures
        app.next().previous() == app,
        app.previous().next() == app,
{
}

/// On an empty registry nothing is selected, and neither selecting nor
/// rolling changes anything.
pub proof fn lemma_empty_registry(app: AppModel)
    requires
        app.wf(),
        app.dice.len() == 0,
    ensures
        app.selected is None,
        app.next() == app,
        app.previous() == app,
        app.rolled() == app,
        !app.roll_fails(),
{
}

/// With nothing selected, "roll" changes nothing: the last roll stays what
/// it was.
pub proof fn lemma_roll_unselected(app: AppModel)
    requires
        app.selected is None,
    ensures
        app.rolled() == app,
        !app.roll_fails(),
{
}

/// Selecting never touches the last roll, the random source or the
/// registry, and rolling never moves the selection.
pub proof fn lemma_transitions_are_separate(app: AppModel)
    ensures
        app.next().last_roll == app.last_roll,
        app.previous().last_roll == app.last_roll,
        app.next().random == app.random,
        app.previous().random == app.random,
        app.rolled().selected == app.selected,
        app.next().dice == app.dice,
        app.previous().dice == app.dice,
        app.rolled().dice == app.dice,
{
}

/// Whatever key is pressed, the selection stays inside the registry.
pub proof fn lemma_keys_keep_selection_valid(app: AppModel, key: Key)
    requires
        app.wf(),
    ensures
        app.after_key(key).wf(),
{
}

/// The controller behind the interactive front ends. It owns the registry
/// and the random source for as long as the front end runs.
pub struct App {
    state: State,
    current_index: Option<usize>,
    current_die_roll: Option<u32>,
    random: RandomSource,
    exit: bool,
}

impl View for App {
    type V = AppModel;

    closed spec fn view(&self) -> AppModel {
        AppModel {
            dice: self.state@,
            selected: match self.current_index {
                Some(index) => Some(index as int),
                None => None,
            },
            last_roll: self.current_die_roll,
            random: self.random@,
            exit: self.exit,
        }
    }
}

impl App {
    #[verifier::type_invariant]
    spec fn selection_in_registry(self) -> bool {
        self.current_index matches Some(index) ==> index < self.state@.len()
    }

    /// A controller over the dice of `state`, with no die selected and no
    /// roll made yet.
    pub fn new(state: State, random: RandomSource) -> (app: App)
        ensures
            app@ == (AppModel {
                dice: state@,
                selected: None,
                last_roll: None,
                random: random@,
                exit: false,
            }),
            app@.wf(),
    {
        App { state, current_index: None, current_die_roll: None, random, exit: false }
    }

    /// Selects the die before the selected one, going round from the first
    /// die to the last. With nothing selected the last die is selected. On
    /// an empty registry nothing happens.
    pub fn previous_die(&mut self)
        ensures
            final(self)@ == old(self)@.previous(),
            final(self)@.wf(),
    {
        proof {
            use_type_invariant(&*self);
        }
        let count = self.state.len();
        if count == 0 {
            return;
        }
        self.current_index = match self.current_index {
            None => Some(count - 1),
            Some(index) => if index == 0 {
                Some(count - 1)
            } else {
                Some(index - 1)
            },
        };
    }

    /// Selects the die after the selected one, going round from the last
    /// die to the first. With nothing selected the first die is selected. On
    /// an empty registry nothing happens.
    pub fn next_die(&mut self)
        ensures
            final(self)@ == old(self)@.next(),
            final(self)@.wf(),
    {
        proof {
            use_type_invariant(&*self);
        }
        let count = self.state.len();
        if count == 0 {
            return;
        }
        self.current_index = match self.current_index {
            None => Some(0),
            Some(index) => if index + 1 >= count {
                Some(0)
            } else {
                Some(index + 1)
            },
        };
    }

    /// Makes `value` the last roll.
    pub fn show_roll(&mut self, value: u32)
        ensures
            final(self)@ == old(self)@.showing(value),
    {
        proof {
            use_type_invariant(&*self);
        }
        self.current_die_roll = Some(value);
    }

    /// Rolls the selected die and keeps the number as the last roll. With
    /// no die selected nothing happens.
    ///
    /// Fails with [`DiceError::UnconfiguredDie`], and changes nothing,
    /// exactly when the selected die has no faces.
    pub fn roll_die(&mut self) -> (done: Result<(), DiceError>)
        ensures
            old(self)@.roll_fails() ==> done == Err::<(), DiceError>(DiceError::UnconfiguredDie)
                && final(self)@ == old(self)@,
            !old(self)@.roll_fails() ==> done is Ok && final(self)@ == old(self)@.rolled(),
            done is Ok && old(self)@.selected is Some ==> old(self)@.shows_roll_of_selected(
                final(self)@.last_roll,
            ),
    {
        proof {
            use_type_invariant(&*self);
        }
        if let Some(index) = self.current_index {
            let die_range = match self.state.get_dice()[index].get_range() {
                Ok(range) => range,
                Err(error) => {
                    return Err(error);
                },
            };
            let mut random = self.random;
            let value = random.roll(die_range);
            self.random = random;
            self.show_roll(value);
        }
        Ok(())
    }

    /// The text of the panel that shows the controller: the title, one line
    /// each for the registry, the selected die and the last roll, as far as
    /// there is one, and the key bindings.
    pub fn render(&self) -> (screen: Screen)
        ensures
            screen@ == self@.screen(),
    {
        proof {
            use_type_invariant(self);
        }
        let mut lines: Vec<TextLine> = Vec::new();
        let dice = match self.state.print_dice() {
            Some(text) => text,
            None => NO_DICE.to_owned(),
        };
        lines.push(TextLine { label: DICE_LABEL, value: dice });
        if let Some(index) = self.current_index {
            let name = self.state.get_dice()[index].get_name().to_owned();
            lines.push(TextLine { label: SELECTED_LABEL, value: name });
        }
        if let Some(roll) = self.current_die_roll {
            lines.push(TextLine { label: ROLL_LABEL, value: decimal_text(roll as u64) });
        }
        assert(lines@.map_values(|line: TextLine| line@) =~= self@.lines());
        Screen { title: TITLE, lines, hints: footer(self.current_index.is_some()) }
    }

    /// Asks the front end to stop.
    pub fn exit(&mut self)
        ensures
            final(self)@ == old(self)@.quit(),
    {
        proof {
            use_type_invariant(&*self);
        }
        self.exit = true;
    }

    /// Whether the user has asked to leave.
    pub fn should_exit(&self) -> (exit: bool)
        ensures
            exit == self@.exit,
    {
        self.exit
    }

    /// The position of the selected die in the registry, if a die is
    /// selected.
    pub fn current_index(&self) -> (index: Option<usize>)
        ensures
            match index {
                Some(i) => self@.selected == Some(i as int) && i < self@.dice.len(),
                None => self@.selected is None,
            },
    {
        proof {
            use_type_invariant(self);
        }
        self.current_index
    }

    /// The selected die, if a die is selected.
    pub fn selected_die(&self) -> (die: Option<&Die>)
        ensures
            match die {
                Some(selected) => self@.selected_die() == Some(selected@),
                None => self@.selected_die() is None,
            },
    {
        proof {
            use_type_invariant(self);
        }
        match self.current_index {
            Some(index) => Some(&self.state.get_dice()[index]),
            None => None,
        }
    }

    /// The number that the last roll showed, if there was a roll.
    pub fn current_die_roll(&self) -> (roll: Option<u32>)
        ensures
            roll == self@.last_roll,
    {
        self.current_die_roll
    }

    /// The registry that the controller works on.
    pub fn state(&self) -> (state: &State)
        ensures
            state@ == self@.dice,
    {
        &self.state
    }

    /// Acts on a key: `q`, `Q` and Esc quit, Left selects the previous die,
    /// Right the next one, Enter rolls, and every other key does nothing.
    ///
    /// Fails, and changes nothing, exactly when the key is Enter and the
    /// selected die has no faces.
    pub fn handle_key_event(&mut self, key: Key) -> (done: Result<(), DiceError>)
        ensures
            key == Key::Enter && old(self)@.roll_fails() ==> done == Err::<(), DiceError>(
                DiceError::UnconfiguredDie,
            ) && final(self)@ == old(self)@,
            !(key == Key::Enter && old(self)@.roll_fails()) ==> done is Ok && final(self)@
                == old(self)@.after_key(key),
    {
        match key {
            Key::Char(c) => {
                if c == 'q' || c == 'Q' {
                    self.exit();
                }
            },
            Key::Esc => {
                self.exit();
            },
            Key::Left => {
                self.previous_die();
            },
            Key::Right => {
                self.next_die();
            },
            Key::Enter => {
                return self.roll_die();
            },
            Key::Other => {},
        }
        Ok(())
    }

    /// Acts on an event of the terminal: a key press is handled as
    /// [`App::handle_key_event`] does, anything else is ignored.
    pub fn handle_events(&mut self, event: InputEvent) -> (done: Result<(), DiceError>)
        ensures
            event == InputEvent::Press(Key::Enter) && old(self)@.roll_fails() ==> done == Err::<
                (),
                DiceError,
            >(DiceError::UnconfiguredDie) && final(self)@ == old(self)@,
            !(event == InputEvent::Press(Key::Enter) && old(self)@.roll_fails()) ==> done is Ok
                && final(self)@ == old(self)@.after_event(event),
    {
        match event {
            InputEvent::Press(key) => self.handle_key_event(key),
            InputEvent::Other => Ok(()),
        }
    }
}

} // verus!
