//! The registry of dice that a session works with.

use vstd::prelude::*;
use vstd::string::StringExecFns;

use crate::die::{Die, DieModel};
use crate::strings::same_text;

verus! {

/// The text that separates two names in a summary.
pub const SEPARATOR: &'static str = ", ";

/// The texts of `parts`, in order, with `separator` between each two
/// neighbours.
pub open spec fn joined(parts: Seq<Seq<char>>, separator: Seq<char>) -> Seq<char>
    decreases parts.len(),
{
    if parts.len() == 0 {
        Seq::empty()
    } else if parts.len() == 1 {
        parts[0]
    } else {
        joined(parts.drop_last(), separator) + separator + parts.last()
    }
}

/// The names of `dice`, in order.
pub open spec fn names(dice: Seq<DieModel>) -> Seq<Seq<char>> {
    dice.map_values(|die: DieModel| die.name)
}

/// The one-line summary of `dice`: their names joined by [`SEPARATOR`], or
/// nothing when there are no dice.
pub open spec fn summary(dice: Seq<DieModel>) -> Option<Seq<char>> {
    if dice.len() == 0 {
        None
    } else {
        Some(joined(names(dice), SEPARATOR@))
    }
}

/// Adding a die to a registry appends its name to the summary: after the
/// separator if there was a summary, and alone if there was none.
pub proof fn lemma_summary_grows(dice: Seq<DieModel>, die: DieModel)
    ensures
        summary(dice.push(die)) == Some(
            match summary(dice) {
                Some(text) => text + SEPARATOR@ + die.name,
                None => die.name,
            },
        ),
{
    let more = dice.push(die);
    assert(names(more).drop_last() =~= names(dice));
    assert(names(more).last() == die.name);
    if dice.len() == 0 {
        assert(names(more)[0] == die.name);
    }
}

/// The texts that describe `dice`, one after the other.
pub open spec fn dice_description(dice: Seq<DieModel>) -> Seq<char>
    decreases dice.len(),
{
    if dice.len() == 0 {
        Seq::empty()
    } else {
        dice_description(dice.drop_last()) + dice.last().description()
    }
}

/// The text that describes a registry of `dice`: a heading and the
/// description of each die, or a line that says there are none.
pub open spec fn registry_description(dice: Seq<DieModel>) -> Seq<char> {
    if dice.len() == 0 {
        "No dices configured!\n"@
    } else {
        "Outputting all currently configured dices.\n"@ + dice_description(dice)
    }
}

/// Whether the die at position `i` is the first of `dice` called `name`.
pub open spec fn is_first_named(dice: Seq<DieModel>, name: Seq<char>, i: int) -> bool {
    &&& 0 <= i < dice.len()
    &&& dice[i].name == name
    &&& forall|j: int| 0 <= j < i ==> (#[trigger] dice[j]).name != name
}

/// The position of the first of `dice` that is called `name`, if any is.
pub open spec fn first_named(dice: Seq<DieModel>, name: Seq<char>) -> Option<int> {
    if exists|i: int| is_first_named(dice, name, i) {
        Some(choose|i: int| is_first_named(dice, name, i))
    } else {
        None
    }
}

/// `first_named` finds a die exactly when one of that name exists, and then
/// it is the one that `is_first_named` singles out.
pub proof fn lemma_first_named(dice: Seq<DieModel>, name: Seq<char>)
    ensures
        first_named(dice, name) matches Some(i) ==> is_first_named(dice, name, i),
        first_named(dice, name) is None <==> forall|i: int|
            0 <= i < dice.len() ==> (#[trigger] dice[i]).name != name,
        forall|i: int| is_first_named(dice, name, i) ==> first_named(dice, name) == Some(i),
{
    if exists|i: int| 0 <= i < dice.len() && (#[trigger] dice[i]).name == name {
        let k = choose|i: int| 0 <= i < dice.len() && (#[trigger] dice[i]).name == name;
        lemma_first_exists(dice, name, k);
    }
    assert forall|i: int| is_first_named(dice, name, i) implies first_named(dice, name) == Some(
        i,
    ) by {
        let c = choose|c: int| is_first_named(dice, name, c);
        assert(is_first_named(dice, name, c));
        if c < i {
            assert(dice[c].name != name);
        } else if i < c {
            assert(dice[i].name != name);
        }
    }
}

/// If the die at position `k` is called `name`, some die at or before `k`
/// is the first of that name.
proof fn lemma_first_exists(dice: Seq<DieModel>, name: Seq<char>, k: int)
    requires
        0 <= k < dice.len(),
        dice[k].name == name,
    ensures
        exists|i: int| 0 <= i <= k && is_first_named(dice, name, i),
    decreases k,
{
    if exists|j: int| 0 <= j < k && (#[trigger] dice[j]).name == name {
        let j = choose|j: int| 0 <= j < k && (#[trigger] dice[j]).name == name;
        lemma_first_exists(dice, name, j);
    } else {
        assert(is_first_named(dice, name, k));
    }
}

/// The dice of a session, in the order in which they were added. That order
/// is the one in which they are shown and selected.
pub struct State {
    dice: Vec<Die>,
}

impl View for State {
    type V = Seq<DieModel>;

    closed spec fn view(&self) -> Seq<DieModel> {
        self.dice@.map_values(|die: Die| die@)
    }
}

impl State {
    /// Appends `dice` to the registry, which owns it from then on.
    pub fn add_die(&mut self, dice: Die)
        ensures
            final(self)@ == old(self)@.push(dice@),
    {
        self.dice.push(dice);
        assert(self@ =~= old(self)@.push(dice@));
    }

    /// The names of all dice joined by `", "`, in registry order; `None`
    /// when the registry is empty.
    pub fn print_dice(&self) -> (line: Option<String>)
        ensures
            match summary(self@) {
                Some(text) => line is Some && line->Some_0@ == text,
                None => line is None,
            },
    {
        if self.dice.len() == 0 {
            return None;
        }
        let mut buffer = String::new();
        let mut i: usize = 0;
        while i < self.dice.len()
            invariant
                i <= self.dice.len(),
                buffer@ == joined(names(self@).take(i as int), SEPARATOR@),
            decreases self.dice.len() - i,
        {
            let ghost before = names(self@).take(i as int);
            let ghost after = names(self@).take(i + 1);
            assert(after.drop_last() =~= before);
            assert(after.last() == self.dice[i as int]@.name);
            if i > 0 {
                buffer.append(SEPARATOR);
            }
            buffer.append(self.dice[i].get_name());
            assert(buffer@ =~= joined(after, SEPARATOR@));
            i = i + 1;
        }
        assert(names(self@).take(i as int) =~= names(self@));
        Some(buffer)
    }

    /// The first die whose name is exactly `name`, or `None` when no die
    /// has that name.
    pub fn find_by_name(&self, name: &str) -> (found: Option<&Die>)
        ensures
            match first_named(self@, name@) {
                Some(i) => found is Some && found->Some_0@ == self@[i],
                None => found is None,
            },
    {
        let mut i: usize = 0;
        while i < self.dice.len()
            invariant
                i <= self.dice.len(),
                forall|j: int| 0 <= j < i ==> (#[trigger] self@[j]).name != name@,
            decreases self.dice.len() - i,
        {
            if same_text(self.dice[i].get_name(), name) {
                proof {
                    assert(is_first_named(self@, name@, i as int));
                    lemma_first_named(self@, name@);
                }
                return Some(&self.dice[i]);
            }
            i = i + 1;
        }
        proof {
            lemma_first_named(self@, name@);
        }
        None
    }

    /// The text that describes the registry: a heading followed by the
    /// description of every die, or one line that says that no dice are
    /// configured.
    pub fn describe(&self) -> (text: String)
        ensures
            text@ == registry_description(self@),
    {
        if self.dice.len() == 0 {
            return "No dices configured!\n".to_owned();
        }
        let mut text = "Outputting all currently configured dices.\n".to_owned();
        let ghost start = text@;
        let mut i: usize = 0;
        assert(text@ =~= start + dice_description(self@.take(0)));
        while i < self.dice.len()
            invariant
                i <= self.dice.len(),
                start == "Outputting all currently configured dices.\n"@,
                text@ == start + dice_description(self@.take(i as int)),
            decreases self.dice.len() - i,
        {
            assert(self@.take(i + 1).drop_last() =~= self@.take(i as int));
            self.dice[i].describe_into(&mut text);
            assert(text@ =~= start + dice_description(self@.take(i + 1)));
            i = i + 1;
        }
        assert(self@.take(i as int) =~= self@);
        text
    }

    /// All dice, in registry order.
    pub fn get_dice(&self) -> (dice: &[Die])
        ensures
            dice@.len() == self@.len(),
            forall|i: int| 0 <= i < dice@.len() ==> (#[trigger] dice@[i])@ == self@[i],
    {
        self.dice.as_slice()
    }

    /// The number of dice in the registry.
    pub fn len(&self) -> (count: usize)
        ensures
            count == self@.len(),
    {
        self.dice.len()
    }
}

impl Default for State {
    /// A registry without dice.
    fn default() -> (state: State)
        ensures
            state@ == Seq::<DieModel>::empty(),
    {
        let state = State { dice: Vec::new() };
        assert(state@ =~= Seq::<DieModel>::empty());
        state
    }
}

} // verus!
