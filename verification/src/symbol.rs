//! The fixed table of faces that a die can show.

use vstd::prelude::*;
use vstd::string::StringExecFns;

use crate::error::DiceError;
use crate::strings::{decimal, push_decimal};

verus! {

/// The highest face number in the table; the lowest is zero.
pub const MAX_FACE: usize = 20;

/// The display names of the faces, indexed by face number.
pub open spec fn face_names() -> Seq<Seq<char>> {
    seq![
        "Zero"@,
        "One"@,
        "Two"@,
        "Three"@,
        "Four"@,
        "Five"@,
        "Six"@,
        "Seven"@,
        "Eight"@,
        "Nine"@,
        "Ten"@,
        "Eleven"@,
        "Twelve"@,
        "Thirteen"@,
        "Fourteen"@,
        "Fiveteen"@,
        "Sixteen"@,
        "Seventeen"@,
        "Eighteen"@,
        "Nineteen"@,
        "Twenty"@,
    ]
}

/// Whether `number` is the number of a face in the table.
pub open spec fn is_face_number(number: int) -> bool {
    0 <= number <= MAX_FACE
}

/// The display name of the face numbered `number`.
pub open spec fn face_name(number: nat) -> Seq<char>
    recommends
        is_face_number(number as int),
{
    face_names()[number as int]
}

/// The line that describes the face numbered `number`: its name and its
/// number, ended by a line break.
pub open spec fn face_description(number: nat) -> Seq<char> {
    "Symbol: "@ + face_name(number) + ", Number: "@ + decimal(number) + "\n"@
}

/// One face of a die: a number from the table together with its name.
///
/// Values are obtained from [`Symbol::lookup`] only, so every `Symbol` is an
/// entry of the table. Its view is its face number.
#[derive(Clone, Copy, Debug)]
pub struct Symbol {
    name: &'static str,
    number: usize,
}

impl View for Symbol {
    type V = nat;

    closed spec fn view(&self) -> nat {
        self.number as nat
    }
}

impl Symbol {
    #[verifier::type_invariant]
    spec fn in_table(self) -> bool {
        &&& self.number <= MAX_FACE
        &&& self.name@ == face_name(self.number as nat)
    }

    /// Returns the face whose number is `number`.
    ///
    /// Fails with [`DiceError::Configuration`] exactly when the table has no
    /// such face.
    pub fn lookup(number: usize) -> (found: Result<Symbol, DiceError>)
        ensures
            is_face_number(number as int) ==> found is Ok && found->Ok_0@ == number,
            !is_face_number(number as int) ==> found == Err::<Symbol, DiceError>(
                DiceError::Configuration,
            ),
    {
        let name = match number {
            0 => "Zero",
            1 => "One",
            2 => "Two",
            3 => "Three",
            4 => "Four",
            5 => "Five",
            6 => "Six",
            7 => "Seven",
            8 => "Eight",
            9 => "Nine",
            10 => "Ten",
            11 => "Eleven",
            12 => "Twelve",
            13 => "Thirteen",
            14 => "Fourteen",
            15 => "Fiveteen",
            16 => "Sixteen",
            17 => "Seventeen",
            18 => "Eighteen",
            19 => "Nineteen",
            20 => "Twenty",
            _ => {
                return Err(DiceError::Configuration);
            },
        };
        Ok(Symbol { name, number })
    }

    /// The face number, between zero and [`MAX_FACE`].
    pub fn number(&self) -> (number: usize)
        ensures
            number == self@,
            is_face_number(number as int),
    {
        proof {
            use_type_invariant(self);
        }
        self.number
    }

    /// Appends the line that describes the face to `buffer`.
    pub fn describe_into(&self, buffer: &mut String)
        ensures
            final(buffer)@ == old(buffer)@ + face_description(self@),
    {
        buffer.append("Symbol: ");
        buffer.append(self.name());
        buffer.append(", Number: ");
        push_decimal(buffer, self.number() as u64);
        buffer.append("\n");
        assert(buffer@ =~= old(buffer)@ + face_description(self@));
    }

    /// The line that describes the face, as
    /// `Symbol: <name>, Number: <number>` and a line break.
    pub fn describe(&self) -> (text: String)
        ensures
            text@ == face_description(self@),
    {
        let mut text = String::new();
        self.describe_into(&mut text);
        assert(text@ =~= face_description(self@));
        text
    }

    /// The display name of the face.
    pub fn name(&self) -> (name: &'static str)
        ensures
            name@ == face_name(self@),
    {
        proof {
            use_type_invariant(self);
        }
        self.name
    }
}

} // verus!
