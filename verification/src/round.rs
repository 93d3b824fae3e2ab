//! One guess-and-reveal round: draw a secret, take the line that was read,
//! echo it, and pass a verdict.

use vstd::prelude::*;
use rand::Rng;
use crate::messages::{Outcome, RoundError, outcome_text, outcome_message};
use crate::parse::{is_decimal_string, decimal_value, strip_line_ending, parse_guess};

verus! {

/// Relies on `rand::Rng::gen_range`: the value drawn from the inclusive
/// range `1..=100` lies between 1 and 100.
#[verifier::external_body]
fn draw_secret() -> (n: u32)
    ensures
        1 <= n <= 100,
{
    rand::thread_rng().gen_range(1..=100)
}

/// One round of the game, holding the secret number.
pub struct Round {
    secret: u32,
}

/// The verdict on a numeric guess: a three-way comparison against the
/// secret.
pub open spec fn spec_outcome(guess: u32, secret: u32) -> Outcome {
    if guess < secret {
        Outcome::TooSmall
    } else if guess > secret {
        Outcome::TooBig
    } else {
        Outcome::YouWin
    }
}

/// The echo line: the captured guess text, verbatim, after the fixed
/// template.
pub open spec fn echo_text(line: Seq<char>) -> Seq<char> {
    "You guessed "@ + line
}

/// The two fixed prompt lines that open every round.
pub open spec fn prompt_text() -> Seq<Seq<char>> {
    seq!["Guess the number!"@, "Your guess: "@]
}

/// What a round prints after the prompts, given what the read produced:
/// nothing when there was no line; the echo alone when the line is not a
/// valid guess; the echo and one outcome line otherwise.
pub open spec fn spec_round_lines(secret: u32, read: Option<Seq<char>>) -> Seq<Seq<char>> {
    match read {
        Option::None => Seq::empty(),
        Option::Some(line) => {
            let t = strip_line_ending(line);
            if is_decimal_string(t) && decimal_value(t) <= u32::MAX {
                seq![echo_text(line), outcome_text(spec_outcome(decimal_value(t) as u32, secret))]
            } else {
                seq![echo_text(line)]
            }
        },
    }
}

/// How a round ends, given what the read produced: a read failure when
/// there was no line, an invalid guess when the line is not a decimal
/// integer, and no error otherwise.
pub open spec fn spec_round_failure(read: Option<Seq<char>>) -> Option<RoundError> {
    match read {
        Option::None => Option::Some(RoundError::ReadFailure),
        Option::Some(line) => {
            let t = strip_line_ending(line);
            if is_decimal_string(t) && decimal_value(t) <= u32::MAX {
                Option::None
            } else {
                Option::Some(RoundError::InvalidGuess)
            }
        },
    }
}

/// The view of an optional captured line.
pub open spec fn read_view(read: Option<&str>) -> Option<Seq<char>> {
    match read {
        Option::None => Option::None,
        Option::Some(l) => Option::Some(l@),
    }
}

/// The lines one round writes to standard output after the prompts, in
/// order, and the failure that ended it, if any.
pub struct RoundReport {
    pub lines: Vec<String>,
    pub failure: Option<RoundError>,
}

impl Round {
    /// The secret number the guess is measured against.
    pub closed spec fn spec_secret(&self) -> u32 {
        self.secret
    }

    /// A round is well formed when its secret lies in `[1, 100]`.
    pub open spec fn wf(&self) -> bool {
        1 <= self.spec_secret() <= 100
    }

    /// Starts a round with a freshly drawn secret.
    pub fn new() -> (r: Round)
        ensures
            r.wf(),
    {
        Round { secret: draw_secret() }
    }

    /// Starts a round with a chosen secret, for deterministic play.
    pub fn with_secret(secret: u32) -> (r: Round)
        requires
            1 <= secret <= 100,
        ensures
            r.wf(),
            r.spec_secret() == secret,
    {
        Round { secret }
    }

    /// The secret of this round.
    pub fn secret(&self) -> (n: u32)
        ensures
            n == self.spec_secret(),
    {
        self.secret
    }

    /// Finishes the round on what the read produced: `None` when standard
    /// input gave no line, `Some` with the captured line otherwise. The
    /// report holds exactly the lines still to print and how the round
    /// ended.
    pub fn conclude(&self, read: Option<&str>) -> (rep: RoundReport)
        ensures
            rep.lines@.map_values(|l: String| l@) == spec_round_lines(
                self.spec_secret(),
                read_view(read),
            ),
            rep.failure == spec_round_failure(read_view(read)),
    {
        match read {
            Option::None => {
                let rep = RoundReport { lines: Vec::new(), failure: Option::Some(RoundError::ReadFailure) };
                proof {
                    assert(rep.lines@.map_values(|l: String| l@) =~= spec_round_lines(
                        self.spec_secret(),
                        read_view(read),
                    ));
                }
                rep
            },
            Option::Some(line) => {
                let mut lines: Vec<String> = Vec::new();
                lines.push(echo_line(line));
                match parse_guess(line) {
                    Option::Some(g) => {
                        let o = compare_guess(g, self.secret);
                        lines.push(String::from_str(outcome_message(o)));
                        let rep = RoundReport { lines, failure: Option::None };
                        proof {
                            assert(rep.lines@.map_values(|l: String| l@) =~= spec_round_lines(
                                self.spec_secret(),
                                read_view(read),
                            ));
                        }
                        rep
                    },
                    Option::None => {
                        let rep = RoundReport { lines, failure: Option::Some(RoundError::InvalidGuess) };
                        proof {
                            assert(rep.lines@.map_values(|l: String| l@) =~= spec_round_lines(
                                self.spec_secret(),
                                read_view(read),
                            ));
                        }
                        rep
                    },
                }
            },
        }
    }
}

/// Three-way comparison of the numeric guess against the secret.
pub fn compare_guess(guess: u32, secret: u32) -> (o: Outcome)
    ensures
        o == spec_outcome(guess, secret),
{
    if guess < secret {
        Outcome::TooSmall
    } else if guess > secret {
        Outcome::TooBig
    } else {
        Outcome::YouWin
    }
}

/// The echo line for a captured guess.
pub fn echo_line(line: &str) -> (s: String)
    ensures
        s@ == echo_text(line@),
{
    let mut s = String::from_str("You guessed ");
    s.append(line);
    s
}

/// A line that is one of the three fixed outcome literals.
pub open spec fn is_outcome_line(s: Seq<char>) -> bool {
    s == outcome_text(Outcome::TooSmall) || s == outcome_text(Outcome::TooBig) || s
        == outcome_text(Outcome::YouWin)
}

/// Every round prints exactly one outcome line when it reaches a verdict,
/// and none at all when it ends in an error.
pub proof fn lemma_exactly_one_outcome_line(secret: u32, read: Option<Seq<char>>)
    ensures
        spec_round_failure(read) is None ==> spec_round_lines(secret, read).len() == 2
            && !is_outcome_line(spec_round_lines(secret, read)[0]) && is_outcome_line(
            spec_round_lines(secret, read)[1],
        ),
        spec_round_failure(read) is Some ==> forall|i: int|
            0 <= i < spec_round_lines(secret, read).len() ==> !is_outcome_line(
                #[trigger] spec_round_lines(secret, read)[i],
            ),
{
    reveal_strlit("You guessed ");
    reveal_strlit("Too small!");
    reveal_strlit("Too big!");
    reveal_strlit("You win!");
    assert(forall|line: Seq<char>| echo_text(line).len() >= 12);
    match read {
        Option::None => {},
        Option::Some(line) => {
            assert(spec_round_lines(secret, read)[0] == echo_text(line));
            assert(!is_outcome_line(echo_text(line)));
        },
    }
}

/// The echoed guess line carries the captured input verbatim: dropping the
/// fixed template prefix gives back exactly the line that was read.
pub proof fn lemma_echo_round_trip(line: Seq<char>)
    ensures
        echo_text(line).len() == 12 + line.len(),
        echo_text(line).skip(12) == line,
{
    reveal_strlit("You guessed ");
    assert(echo_text(line).skip(12) =~= line);
}

/// A round whose read produced no line prints nothing further and ends in
/// the read failure, whatever the secret.
pub proof fn lemma_read_failure_silent(secret: u32)
    ensures
        spec_round_lines(secret, Option::None) =~= Seq::<Seq<char>>::empty(),
        spec_round_failure(Option::None) == Option::Some(RoundError::ReadFailure),
{
}

/// The two prompt lines, ready to print.
pub fn prompt_lines() -> (v: Vec<String>)
    ensures
        v@.map_values(|l: String| l@) == prompt_text(),
{
    let mut v: Vec<String> = Vec::new();
    v.push(String::from_str("Guess the number!"));
    v.push(String::from_str("Your guess: "));
    proof {
        assert(v@.map_values(|l: String| l@) =~= prompt_text());
    }
    v
}

} // verus!
