//! A die: a name and the faces it can show, in the order they were inserted.

use std::ops::Range;
use vstd::prelude::*;
use vstd::string::StringExecFns;

use crate::error::DiceError;
use crate::symbol::{face_description, Symbol};

verus! {

/// Whether `faces` are in ascending order: no face is followed, directly or
/// further on, by a lower one.
pub open spec fn ascending(faces: Seq<nat>) -> bool {
    forall|i: int, j: int| 0 <= i <= j < faces.len() ==> faces[i] <= faces[j]
}

/// The lines that describe `faces`, one after the other.
pub open spec fn faces_description(faces: Seq<nat>) -> Seq<char>
    decreases faces.len(),
{
    if faces.len() == 0 {
        Seq::empty()
    } else {
        faces_description(faces.drop_last()) + face_description(faces.last())
    }
}

/// What a die is, mathematically: its name and the numbers of its faces, in
/// insertion order.
pub struct DieModel {
    pub name: Seq<char>,
    pub faces: Seq<nat>,
}

impl DieModel {
    /// The half-open interval `(low, high)` from which the die is rolled:
    /// from the first face up to and including the last one. A die without
    /// faces has none.
    pub open spec fn range(self) -> Option<(nat, nat)> {
        if self.faces.len() == 0 {
            None
        } else {
            Some((self.faces.first(), self.faces.last() + 1))
        }
    }

    /// The text that describes the die: a line with its name, then one
    /// line for each face.
    pub open spec fn description(self) -> Seq<char> {
        "Name: "@ + self.name + "\n"@ + faces_description(self.faces)
    }

    /// Whether `value` can come up when the die is rolled.
    pub open spec fn can_roll(self, value: int) -> bool {
        self.range() matches Some((low, high)) && low <= value < high
    }
}

/// A named die. Its faces are kept in the order in which they were
/// inserted, and that order is always ascending: nothing sorts them, so
/// whoever inserts a face has to put it in its place.
pub struct Die {
    name: String,
    values: Vec<Symbol>,
}

impl View for Die {
    type V = DieModel;

    closed spec fn view(&self) -> DieModel {
        DieModel { name: self.name@, faces: self.values@.map_values(|s: Symbol| s@) }
    }
}

impl Die {
    #[verifier::type_invariant]
    spec fn faces_ascending(self) -> bool {
        ascending(self@.faces)
    }

    /// Creates a die called `name` that has no faces yet.
    pub fn new(name: String) -> (die: Die)
        ensures
            die@.name == name@,
            die@.faces == Seq::<nat>::empty(),
    {
        let die = Die { name, values: Vec::new() };
        assert(die@.faces =~= Seq::<nat>::empty());
        die
    }

    /// Inserts `symbol` so that it becomes the face at position `index`;
    /// the faces from there on move one place back.
    ///
    /// The position must exist or be the end, and the caller is responsible
    /// for the order: with the new face in place the faces must still
    /// ascend.
    pub fn insert_symbol(&mut self, symbol: Symbol, index: usize)
        requires
            index <= old(self)@.faces.len(),
            ascending(old(self)@.faces.insert(index as int, symbol@)),
        ensures
            final(self)@.name == old(self)@.name,
            final(self)@.faces == old(self)@.faces.insert(index as int, symbol@),
    {
        let ghost faces = self@.faces.insert(index as int, symbol@);
        assert(self.values@.insert(index as int, symbol).map_values(|s: Symbol| s@) =~= faces);
        let mut values: Vec<Symbol> = Vec::new();
        assert(values@.map_values(|s: Symbol| s@) =~= Seq::<nat>::empty());
        std::mem::swap(&mut self.values, &mut values);
        values.insert(index, symbol);
        std::mem::swap(&mut self.values, &mut values);
    }

    /// The interval from which the die is rolled: the number of the first
    /// face up to, but not including, the number after the last face. The
    /// interval is never empty.
    ///
    /// Fails with [`DiceError::UnconfiguredDie`] exactly when the die has no
    /// faces.
    pub fn get_range(&self) -> (range: Result<Range<u32>, DiceError>)
        ensures
            match self@.range() {
                Some((low, high)) => range is Ok && range->Ok_0.start == low
                    && range->Ok_0.end == high && low < high,
                None => range == Err::<Range<u32>, DiceError>(DiceError::UnconfiguredDie),
            },
    {
        proof {
            use_type_invariant(self);
        }
        let count = self.values.len();
        if count == 0 {
            return Err(DiceError::UnconfiguredDie);
        }
        let first_value = self.values[0].number() as u32;
        let second_value = self.values[count - 1].number() as u32;
        Ok(first_value..(second_value + 1))
    }

    /// The name of the die.
    pub fn get_name(&self) -> (name: &str)
        ensures
            name@ == self@.name,
    {
        self.name.as_str()
    }

    /// Appends the text that describes the die to `buffer`.
    pub fn describe_into(&self, buffer: &mut String)
        ensures
            final(buffer)@ == old(buffer)@ + self@.description(),
    {
        buffer.append("Name: ");
        buffer.append(self.name.as_str());
        buffer.append("\n");
        let ghost start = buffer@;
        let mut i: usize = 0;
        while i < self.values.len()
            invariant
                i <= self.values.len(),
                start == old(buffer)@ + "Name: "@ + self@.name + "\n"@,
                buffer@ == start + faces_description(self@.faces.take(i as int)),
            decreases self.values.len() - i,
        {
            assert(self@.faces.take(i + 1).drop_last() =~= self@.faces.take(i as int));
            self.values[i].describe_into(buffer);
            assert(buffer@ =~= start + faces_description(self@.faces.take(i + 1)));
            i = i + 1;
        }
        assert(self@.faces.take(i as int) =~= self@.faces);
        assert(buffer@ =~= old(buffer)@ + self@.description());
    }

    /// The text that describes the die: `Name: <name>` on a line of its
    /// own, then the line of each face.
    pub fn describe(&self) -> (text: String)
        ensures
            text@ == self@.description(),
    {
        let mut text = String::new();
        self.describe_into(&mut text);
        assert(text@ =~= self@.description());
        text
    }

    /// The faces of the die, in their order, which is ascending.
    pub fn get_values(&self) -> (values: &[Symbol])
        ensures
            values@.map_values(|s: Symbol| s@) == self@.faces,
            ascending(self@.faces),
    {
        proof {
            use_type_invariant(self);
        }
        self.values.as_slice()
    }
}

} // verus!
