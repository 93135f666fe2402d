//! Failures that the dice library reports to its callers.

use vstd::prelude::*;

verus! {

/// The ways in which an operation on the dice catalog can fail.
#[derive(Clone, Copy, Debug, PartialEq, Eq, Structural)]
pub enum DiceError {
    /// A die was configured with a face that the fixed face table does not
    /// hold, or at a position that the die does not have.
    Configuration,
    /// The roll range of a die without faces was requested.
    UnconfiguredDie,
    /// The operating system could not provide entropy for a seed.
    Entropy,
}

impl DiceError {
    /// A short human-readable description of the failure.
    pub fn message(&self) -> (text: &'static str)
        ensures
            text@ == match *self {
                DiceError::Configuration => "Symbol should exist. Otherwise check the range!"@,
                DiceError::UnconfiguredDie => "Die should be configured!"@,
                DiceError::Entropy => "Should be able to get random bytes"@,
            },
    {
        match self {
            DiceError::Configuration => "Symbol should exist. Otherwise check the range!",
            DiceError::UnconfiguredDie => "Die should be configured!",
            DiceError::Entropy => "Should be able to get random bytes",
        }
    }
}

} // verus!
