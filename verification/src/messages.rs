//! The verdicts and errors a round can end with, and the fixed literals
//! printed for them.

use vstd::prelude::*;

verus! {

/// How the guess relates to the secret number.
#[derive(Clone, Copy, Debug, PartialEq, Eq, Structural)]
pub enum Outcome {
    TooSmall,
    TooBig,
    YouWin,
}

/// Why a round ends without a verdict.
#[derive(Clone, Copy, Debug, PartialEq, Eq, Structural)]
pub enum RoundError {
    /// Standard input produced no line.
    ReadFailure,
    /// The line read is not a decimal integer that fits the guess type.
    InvalidGuess,
}

/// The literal printed for each verdict.
pub open spec fn outcome_text(o: Outcome) -> Seq<char> {
    match o {
        Outcome::TooSmall => "Too small!"@,
        Outcome::TooBig => "Too big!"@,
        Outcome::YouWin => "You win!"@,
    }
}

/// The diagnostic printed for each error.
pub open spec fn error_text(e: RoundError) -> Seq<char> {
    match e {
        RoundError::ReadFailure => "Failed to read line"@,
        RoundError::InvalidGuess => "Invalid guess: not a decimal integer"@,
    }
}

/// The fixed outcome line for a verdict.
pub fn outcome_message(o: Outcome) -> (m: &'static str)
    ensures
        m@ == outcome_text(o),
{
    match o {
        Outcome::TooSmall => "Too small!",
        Outcome::TooBig => "Too big!",
        Outcome::YouWin => "You win!",
    }
}

/// The fixed diagnostic for an error.
pub fn error_message(e: RoundError) -> (m: &'static str)
    ensures
        m@ == error_text(e),
{
    match e {
        RoundError::ReadFailure => "Failed to read line",
        RoundError::InvalidGuess => "Invalid guess: not a decimal integer",
    }
}

/// Distinct verdicts are printed as distinct lines.
pub proof fn lemma_outcome_texts_distinct(a: Outcome, b: Outcome)
    ensures
        a == b <==> outcome_text(a) == outcome_text(b),
{
    reveal_strlit("Too small!");
    reveal_strlit("Too big!");
    reveal_strlit("You win!");
    assert(outcome_text(Outcome::TooSmall).len() == 10);
    assert(outcome_text(Outcome::TooBig)[0] == 'T');
    assert(outcome_text(Outcome::YouWin)[0] == 'Y');
}

} // verus!
