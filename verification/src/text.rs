//! The line-based front end as a state machine: it is fed the lines that
//! the user types and answers with the lines to print.
//!
//! The session first asks for the name of a die until a line names one,
//! then rolls that die, and after every roll asks whether to roll again
//! until the answer is yes or no.

use vstd::prelude::*;
use vstd::string::StringExecFns;

use crate::die::DieModel;
use crate::error::DiceError;
use crate::random::{drawn_value, state_after_draw, RandomSource};
use crate::state::{first_named, summary, State};
use crate::strings::{decimal, push_decimal, same_text, trim, trimmed};

verus! {

/// Starts the line that lists the dice.
pub const AVAILABLE: &'static str = "Currently available dice: ";

/// Stands for the list of dice when there are none.
pub const NONE_AVAILABLE: &'static str = "None";

/// Asks for the name of a die.
pub const ENTER_NAME: &'static str = "Please enter the name of the die you want to use.";

/// Answers a line that is neither the name of a die nor yes or no.
pub const NO_MATCH: &'static str =
    "Your input matched with none of the existing dice. Please try again!";

/// Starts the line that confirms the choice of a die.
pub const FOUND: &'static str = "Found die: ";

/// Starts the description of the chosen die.
pub const SELECTED: &'static str = "You selected: ";

/// Announces the first roll.
pub const THROWING: &'static str = "Throwing the die!";

/// Starts the line that shows a roll.
pub const ROLLED: &'static str = "You rolled a: ";

/// Asks whether to roll again.
pub const ROLL_AGAIN: &'static str = "Do you want to roll again?(y/n)";

/// Where a session stands.
#[derive(Clone, Copy, Debug, PartialEq, Eq, Structural)]
pub enum TextPhase {
    /// The session waits for the name of a die.
    ChoosingDie,
    /// A die was chosen and rolled; the session waits for the answer to
    /// "roll again?". The die is rolled from `low..high`, and the last roll
    /// showed `last`.
    Rolling { low: u32, high: u32, last: u32 },
    /// The user has declined to roll again.
    Done,
}

/// Whether `input` says yes.
pub open spec fn says_yes(input: Seq<char>) -> bool {
    input == "y"@ || input == "Y"@
}

/// Whether `input` says no.
pub open spec fn says_no(input: Seq<char>) -> bool {
    input == "n"@ || input == "N"@
}

/// What a session is, mathematically.
pub struct TextModel {
    /// The dice of the registry, in order.
    pub dice: Seq<DieModel>,
    /// The state of the random source.
    pub random: (u64, u64),
    /// Where the session stands.
    pub phase: TextPhase,
}

impl TextModel {
    /// While a die is being rolled, the last roll is a number of its range.
    pub open spec fn wf(self) -> bool {
        self.phase matches TextPhase::Rolling { low, high, last } ==> low <= last < high
    }

    /// The lines that open a session: the dice that there are, and the
    /// request to name one.
    pub open spec fn greeting(self) -> Seq<Seq<char>> {
        seq![
            AVAILABLE@ + match summary(self.dice) {
                Some(text) => text,
                None => NONE_AVAILABLE@,
            },
            ENTER_NAME@,
        ]
    }

    /// The session after a roll from `low..high`.
    pub open spec fn after_roll(self, low: u32, high: u32) -> TextModel {
        TextModel {
            random: state_after_draw(self.random, low, high),
            phase: TextPhase::Rolling { low, high, last: drawn_value(self.random, low, high) },
            ..self
        }
    }

    /// The lines that a roll from `low..high` prints: the number, and the
    /// question whether to roll again.
    pub open spec fn roll_lines(self, low: u32, high: u32) -> Seq<Seq<char>> {
        seq![ROLLED@ + decimal(drawn_value(self.random, low, high) as nat), ROLL_AGAIN@]
    }

    /// The lines that choosing `die` prints before the first roll.
    pub open spec fn choice_lines(die: DieModel) -> Seq<Seq<char>> {
        seq![FOUND@ + die.name, SELECTED@ + die.description(), THROWING@]
    }

    /// Whether `input` makes the session fail: a die is to be chosen, and
    /// the first die that `input` names has no faces.
    pub open spec fn input_fails(self, input: Seq<char>) -> bool {
        &&& self.phase is ChoosingDie
        &&& first_named(self.dice, input) matches Some(i)
        &&& self.dice[i].range() is None
    }

    /// The session after the user has typed `input`.
    pub open spec fn after_input(self, input: Seq<char>) -> TextModel {
        match self.phase {
            TextPhase::ChoosingDie => match first_named(self.dice, input) {
                Some(i) => match self.dice[i].range() {
                    Some((low, high)) => self.after_roll(low as u32, high as u32),
                    None => self,
                },
                None => self,
            },
            TextPhase::Rolling { low, high, .. } => if says_yes(input) {
                self.after_roll(low, high)
            } else if says_no(input) {
                TextModel { phase: TextPhase::Done, ..self }
            } else {
                self
            },
            TextPhase::Done => self,
        }
    }

    /// The lines that the session prints when the user has typed `input`.
    pub open spec fn output(self, input: Seq<char>) -> Seq<Seq<char>> {
        match self.phase {
            TextPhase::ChoosingDie => match first_named(self.dice, input) {
                Some(i) => match self.dice[i].range() {
                    Some((low, high)) => Self::choice_lines(self.dice[i]) + self.roll_lines(
                        low as u32,
                        high as u32,
                    ),
                    None => seq![],
                },
                None => seq![NO_MATCH@],
            },
            TextPhase::Rolling { low, high, .. } => if says_yes(input) {
                self.roll_lines(low, high)
            } else if says_no(input) {
                seq![]
            } else {
                seq![NO_MATCH@]
            },
            TextPhase::Done => seq![],
        }
    }
}

/// The texts of `lines`.
pub open spec fn texts(lines: Seq<String>) -> Seq<Seq<char>> {
    lines.map_values(|line: String| line@)
}

/// A session of the line-based front end. It owns the registry and the
/// random source for as long as it lasts.
pub struct TextMode {
    state: State,
    random: RandomSource,
    phase: TextPhase,
}

impl View for TextMode {
    type V = TextModel;

    closed spec fn view(&self) -> TextModel {
        TextModel { dice: self.state@, random: self.random@, phase: self.phase }
    }
}

impl TextMode {
    #[verifier::type_invariant]
    spec fn rolling_in_range(self) -> bool {
        self@.wf()
    }

    /// A session over the dice of `state` that waits for the name of a die.
    pub fn new(state: State, random: RandomSource) -> (session: TextMode)
        ensures
            session@ == (TextModel {
                dice: state@,
                random: random@,
                phase: TextPhase::ChoosingDie,
            }),
    {
        TextMode { state, random, phase: TextPhase::ChoosingDie }
    }

    /// The lines to print before the first line is read.
    pub fn greeting(&self) -> (lines: Vec<String>)
        ensures
            texts(lines@) == self@.greeting(),
    {
        let mut available = AVAILABLE.to_owned();
        match self.state.print_dice() {
            Some(text) => {
                available.append(text.as_str());
            },
            None => {
                available.append(NONE_AVAILABLE);
            },
        }
        let mut lines: Vec<String> = Vec::new();
        lines.push(available);
        lines.push(ENTER_NAME.to_owned());
        assert(texts(lines@) =~= self@.greeting());
        lines
    }

    /// Rolls from `low..high` and appends the lines that show the roll to
    /// `lines`.
    fn roll_into(&mut self, low: u32, high: u32, lines: &mut Vec<String>)
        requires
            low < high,
        ensures
            final(self)@ == old(self)@.after_roll(low, high),
            final(self)@.wf(),
            texts(final(lines)@) == texts(old(lines)@) + old(self)@.roll_lines(low, high),
    {
        proof {
            use_type_invariant(&*self);
        }
        let mut random = self.random;
        let value = random.roll(low..high);
        self.random = random;
        self.phase = TextPhase::Rolling { low, high, last: value };
        let mut rolled = ROLLED.to_owned();
        push_decimal(&mut rolled, value as u64);
        lines.push(rolled);
        lines.push(ROLL_AGAIN.to_owned());
        assert(texts(lines@) =~= texts(old(lines)@) + old(self)@.roll_lines(low, high));
    }

    /// Takes what the user has typed, with the white space around it
    /// already removed, and answers with the lines to print.
    ///
    /// While a die is to be chosen, `input` is looked up as a name: the
    /// first die of that name is chosen, described and rolled, and a name
    /// that no die has is answered with a request to try again. While a die
    /// is being rolled, `y` or `Y` rolls again, `n` or `N` ends the session,
    /// and anything else is answered with a request to try again. Once the
    /// session has ended, nothing happens.
    ///
    /// Fails with [`DiceError::UnconfiguredDie`], and changes nothing,
    /// exactly when the die that was named has no faces.
    pub fn feed_input(&mut self, input: &str) -> (printed: Result<Vec<String>, DiceError>)
        ensures
            old(self)@.input_fails(input@) ==> printed == Err::<Vec<String>, DiceError>(
                DiceError::UnconfiguredDie,
            ) && final(self)@ == old(self)@,
            !old(self)@.input_fails(input@) ==> printed is Ok && texts(printed->Ok_0@)
                == old(self)@.output(input@) && final(self)@ == old(self)@.after_input(input@),
            final(self)@.wf(),
    {
        proof {
            use_type_invariant(&*self);
        }
        let mut lines: Vec<String> = Vec::new();
        assert(texts(lines@) =~= Seq::<Seq<char>>::empty());
        match self.phase {
            TextPhase::ChoosingDie => {
                let (low, high) = match self.state.find_by_name(input) {
                    Some(die) => {
                        let range = match die.get_range() {
                            Ok(range) => range,
                            Err(error) => {
                                return Err(error);
                            },
                        };
                        let mut found = FOUND.to_owned();
                        found.append(die.get_name());
                        let mut selected = SELECTED.to_owned();
                        die.describe_into(&mut selected);
                        lines.push(found);
                        lines.push(selected);
                        lines.push(THROWING.to_owned());
                        assert(texts(lines@) =~= TextModel::choice_lines(die@));
                        (range.start, range.end)
                    },
                    None => {
                        lines.push(NO_MATCH.to_owned());
                        assert(texts(lines@) =~= seq![NO_MATCH@]);
                        return Ok(lines);
                    },
                };
                self.roll_into(low, high, &mut lines);
            },
            TextPhase::Rolling { low, high, .. } => {
                if same_text(input, "y") || same_text(input, "Y") {
                    self.roll_into(low, high, &mut lines);
                } else if same_text(input, "n") || same_text(input, "N") {
                    self.phase = TextPhase::Done;
                } else {
                    lines.push(NO_MATCH.to_owned());
                    assert(texts(lines@) =~= seq![NO_MATCH@]);
                }
            },
            TextPhase::Done => {},
        }
        Ok(lines)
    }

    /// Takes a line as it was read, removes the white space around it, line
    /// break included, and handles the rest as [`TextMode::feed_input`]
    /// does.
    pub fn feed_line(&mut self, line: &str) -> (printed: Result<Vec<String>, DiceError>)
        ensures
            old(self)@.input_fails(trimmed(line@)) ==> printed == Err::<Vec<String>, DiceError>(
                DiceError::UnconfiguredDie,
            ) && final(self)@ == old(self)@,
            !old(self)@.input_fails(trimmed(line@)) ==> printed is Ok && texts(printed->Ok_0@)
                == old(self)@.output(trimmed(line@)) && final(self)@ == old(self)@.after_input(
                trimmed(line@),
            ),
            final(self)@.wf(),
    {
        self.feed_input(trim(line))
    }

    /// Whether the session has ended.
    pub fn is_done(&self) -> (done: bool)
        ensures
            done == (self@.phase is Done),
    {
        match self.phase {
            TextPhase::Done => true,
            _ => false,
        }
    }

    /// Where the session stands.
    pub fn phase(&self) -> (phase: TextPhase)
        ensures
            phase == self@.phase,
    {
        self.phase
    }

    /// The number that the last roll showed, while a die is being rolled.
    pub fn last_roll(&self) -> (roll: Option<u32>)
        ensures
            roll == match self@.phase {
                TextPhase::Rolling { last, .. } => Some(last),
                _ => None,
            },
    {
        match self.phase {
            TextPhase::Rolling { last, .. } => Some(last),
            _ => None,
        }
    }
}

} // verus!
