//! Small helpers on text that the rest of the library shares.

use vstd::prelude::*;
use vstd::string::StringExecFns;

verus! {

/// Whether `a` and `b` hold the same characters.
pub fn same_text(a: &str, b: &str) -> (same: bool)
    ensures
        same == (a@ == b@),
{
    let left: String = a.to_owned();
    let right: String = b.to_owned();
    left == right
}

/// What `str::trim` of the standard library makes of `text`: `text` without
/// the white space at its start and at its end, where white space is what
/// Unicode calls so, line breaks included.
pub uninterp spec fn trimmed(text: Seq<char>) -> Seq<char>;

/// Trusted: `str::trim` of the standard library. The result is the text
/// named [`trimmed`].
#[verifier::external_body]
pub(crate) fn trim(text: &str) -> (inner: &str)
    ensures
        inner@ == trimmed(text@),
{
    text.trim()
}

/// The character that stands for the digit `value`, which is below ten.
pub open spec fn digit(value: nat) -> char
    recommends
        value < 10,
{
    seq!['0', '1', '2', '3', '4', '5', '6', '7', '8', '9'][value as int]
}

/// `value` written in decimal, without leading zeros or a sign.
pub open spec fn decimal(value: nat) -> Seq<char>
    decreases value,
{
    if value < 10 {
        seq![digit(value)]
    } else {
        decimal(value / 10).push(digit(value % 10))
    }
}

/// The text of one decimal digit.
fn digit_text(value: u64) -> (text: &'static str)
    requires
        value < 10,
    ensures
        text@ == seq![digit(value as nat)],
{
    proof {
        reveal_strlit("0");
        reveal_strlit("1");
        reveal_strlit("2");
        reveal_strlit("3");
        reveal_strlit("4");
        reveal_strlit("5");
        reveal_strlit("6");
        reveal_strlit("7");
        reveal_strlit("8");
        reveal_strlit("9");
    }
    let text = match value {
        0 => "0",
        1 => "1",
        2 => "2",
        3 => "3",
        4 => "4",
        5 => "5",
        6 => "6",
        7 => "7",
        8 => "8",
        _ => "9",
    };
    assert(text@ =~= seq![digit(value as nat)]);
    text
}

/// Appends `value`, written in decimal, to `buffer`.
pub fn push_decimal(buffer: &mut String, value: u64)
    ensures
        final(buffer)@ == old(buffer)@ + decimal(value as nat),
    decreases value,
{
    if value >= 10 {
        push_decimal(buffer, value / 10);
    }
    buffer.append(digit_text(value % 10));
    assert(buffer@ =~= old(buffer)@ + decimal(value as nat));
}

/// `value` written in decimal.
pub fn decimal_text(value: u64) -> (text: String)
    ensures
        text@ == decimal(value as nat),
{
    let mut text = String::new();
    push_decimal(&mut text, value);
    assert(text@ =~= decimal(value as nat));
    text
}

} // verus!
