//! Building dice from runs of consecutive faces, and the default set of
//! dice that every front end starts with.

use std::ops::Range;
use vstd::prelude::*;

use crate::die::{ascending, Die, DieModel};
use crate::error::DiceError;
use crate::state::State;
use crate::symbol::{Symbol, MAX_FACE};

verus! {

/// The numbers from `start` up to, but not including, `end`, in ascending
/// order.
pub open spec fn consecutive(start: int, end: int) -> Seq<nat> {
    Seq::new(
        if start < end {
            (end - start) as nat
        } else {
            0
        },
        |i: int| (start + i) as nat,
    )
}

/// Whether the faces numbered `start..end` can be placed into a die that
/// holds `faces`: the run is empty, or all its numbers are in the face table
/// above zero, the die has a position `start - 1` to put the first one, and
/// with the run in place the faces still ascend.
pub open spec fn can_configure(faces: Seq<nat>, start: int, end: int) -> bool {
    start >= end || (1 <= start && end <= MAX_FACE + 1 && start - 1 <= faces.len() && ascending(
        configured(faces, start, end),
    ))
}

/// The faces of a die that held `faces` after the faces numbered
/// `start..end` were placed into it: face `n` goes to position `n - 1`, one
/// after the other, so the run ends up as one block at position `start - 1`.
pub open spec fn configured(faces: Seq<nat>, start: int, end: int) -> Seq<nat> {
    if start >= end {
        faces
    } else {
        faces.take(start - 1) + consecutive(start, end) + faces.skip(start - 1)
    }
}

/// Places the faces numbered `range.start..range.end` into `die`, each face
/// `n` at position `n - 1`.
///
/// Either all faces are placed or, where [`can_configure`] does not hold,
/// the die is left as it was and [`DiceError::Configuration`] is returned.
pub fn configure_die(die: &mut Die, range: Range<usize>) -> (done: Result<(), DiceError>)
    ensures
        can_configure(old(die)@.faces, range.start as int, range.end as int) ==> done is Ok
            && final(die)@.name == old(die)@.name && final(die)@.faces == configured(
            old(die)@.faces,
            range.start as int,
            range.end as int,
        ),
        !can_configure(old(die)@.faces, range.start as int, range.end as int) ==> done == Err::<
            (),
            DiceError,
        >(DiceError::Configuration) && final(die)@ == old(die)@,
{
    if range.start >= range.end {
        return Ok(());
    }
    let values = die.get_values();
    let count = values.len();
    if range.start < 1 || range.end > MAX_FACE + 1 || range.start - 1 > count {
        return Err(DiceError::Configuration);
    }
    let ghost before = die@.faces;
    let ghost first = range.start as int;
    let ghost after = configured(before, first, range.end as int);
    let position = range.start - 1;
    if position > 0 && values[position - 1].number() > range.start {
        assert(after[position - 1] > after[position as int]);
        return Err(DiceError::Configuration);
    }
    if position < count && values[position].number() + 1 < range.end {
        assert(after[position + (range.end - first) - 1] > after[position + (range.end - first)]);
        return Err(DiceError::Configuration);
    }
    assert(ascending(after)) by {
        assert forall|i: int, j: int| 0 <= i <= j < after.len() implies after[i] <= after[j] by {
            let run = range.end - first;
            if j < position {
                assert(after[i] == before[i] && after[j] == before[j]);
            } else if i >= position + run {
                assert(after[i] == before[i - run] && after[j] == before[j - run]);
            } else if i < position && j >= position + run {
                assert(after[i] == before[i] && after[j] == before[j - run]);
            } else if i < position {
                assert(after[i] == before[i]);
                assert(before[i] <= before[position - 1]);
            } else if j >= position + run {
                assert(after[j] == before[j - run]);
                assert(before[position as int] <= before[j - run]);
            }
        }
    }
    let mut i: usize = range.start;
    assert(die@.faces =~= before.take(first - 1) + consecutive(first, i as int) + before.skip(
        first - 1,
    ));
    while i < range.end
        invariant
            1 <= first <= i <= range.end <= MAX_FACE + 1,
            first == range.start,
            first - 1 <= before.len(),
            before == old(die)@.faces,
            ascending(before),
            ascending(configured(before, first, range.end as int)),
            die@.name == old(die)@.name,
            die@.faces == before.take(first - 1) + consecutive(first, i as int) + before.skip(
                first - 1,
            ),
        decreases range.end - i,
    {
        let j = i - 1;
        match Symbol::lookup(i) {
            Ok(symbol) => {
                proof {
                    let next = before.take(first - 1) + consecutive(first, i + 1) + before.skip(
                        first - 1,
                    );
                    let whole = configured(before, first, range.end as int);
                    assert(die@.faces.insert(j as int, symbol@) =~= next);
                    assert forall|a: int, b: int| 0 <= a <= b < next.len() implies next[a]
                        <= next[b] by {
                        let rest = range.end - (i + 1);
                        let a_whole = if a < j + 1 {
                            a
                        } else {
                            a + rest
                        };
                        let b_whole = if b < j + 1 {
                            b
                        } else {
                            b + rest
                        };
                        assert(next[a] == whole[a_whole]);
                        assert(next[b] == whole[b_whole]);
                    }
                }
                die.insert_symbol(symbol, j);
            },
            Err(error) => {
                return Err(error);
            },
        }
        i = i + 1;
    }
    Ok(())
}

/// A die called `name` with the faces `1..=sides`.
fn default_die(name: &str, sides: usize) -> (die: Die)
    requires
        1 <= sides <= MAX_FACE,
    ensures
        die@ == (DieModel { name: name@, faces: consecutive(1, sides + 1) }),
{
    let mut die = Die::new(name.to_owned());
    let done = configure_die(&mut die, 1..sides + 1);
    assert(done is Ok);
    assert(die@.faces =~= consecutive(1, sides + 1));
    die
}

/// The dice that [`setup_default_dice`] adds: D4, D6, D10 and D20, each with
/// the faces from one up to its number of sides.
pub open spec fn default_dice() -> Seq<DieModel> {
    seq![
        DieModel { name: "D4"@, faces: consecutive(1, 5) },
        DieModel { name: "D6"@, faces: consecutive(1, 7) },
        DieModel { name: "D10"@, faces: consecutive(1, 11) },
        DieModel { name: "D20"@, faces: consecutive(1, 21) },
    ]
}

/// Appends the default dice to `state`.
pub fn setup_default_dice(state: &mut State)
    ensures
        final(state)@ == old(state)@ + default_dice(),
{
    let d4 = default_die("D4", 4);
    state.add_die(d4);
    let d6 = default_die("D6", 6);
    state.add_die(d6);
    let d10 = default_die("D10", 10);
    state.add_die(d10);
    let d20 = default_die("D20", 20);
    state.add_die(d20);
    assert(state@ =~= old(state)@ + default_dice());
}

/// A die whose faces are the numbers `low..=high` in ascending order is
/// rolled from exactly the half-open interval from `low` to `high + 1`.
pub proof fn lemma_consecutive_range(die: DieModel, low: nat, high: nat)
    requires
        low <= high,
        die.faces == consecutive(low as int, high as int + 1),
    ensures
        die.range() == Some((low, (high + 1) as nat)),
        forall|value: int| die.can_roll(value) <==> low <= value <= high,
{
}

/// The default dice are rolled from the intervals from 1 up to and
/// including their number of sides: 4, 6, 10 and 20.
pub proof fn lemma_default_ranges()
    ensures
        default_dice().len() == 4,
        default_dice()[0].range() == Some((1nat, 5nat)),
        default_dice()[1].range() == Some((1nat, 7nat)),
        default_dice()[2].range() == Some((1nat, 11nat)),
        default_dice()[3].range() == Some((1nat, 21nat)),
{
    lemma_consecutive_range(default_dice()[0], 1, 4);
    lemma_consecutive_range(default_dice()[1], 1, 6);
    lemma_consecutive_range(default_dice()[2], 1, 10);
    lemma_consecutive_range(default_dice()[3], 1, 20);
}

} // verus!
