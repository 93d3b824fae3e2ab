use guessing_game::messages::{error_message, outcome_message, Outcome, RoundError};
use guessing_game::round::{compare_guess, echo_line, prompt_lines, Round};

#[test]
fn outcome_messages_are_the_fixed_literals() {
    assert_eq!(outcome_message(Outcome::TooSmall), "Too small!");
    assert_eq!(outcome_message(Outcome::TooBig), "Too big!");
    assert_eq!(outcome_message(Outcome::YouWin), "You win!");
}

#[test]
fn outcome_messages_are_pairwise_distinct() {
    let all = [Outcome::TooSmall, Outcome::TooBig, Outcome::YouWin];
    for a in 0..all.len() {
        for b in 0..all.len() {
            if a != b {
                assert_ne!(outcome_message(all[a]), outcome_message(all[b]));
            }
        }
    }
}

#[test]
fn error_messages() {
    assert_eq!(error_message(RoundError::ReadFailure), "Failed to read line");
    assert_eq!(
        error_message(RoundError::InvalidGuess),
        "Invalid guess: not a decimal integer"
    );
}

#[test]
fn prompt_lines_are_the_fixed_literals() {
    let v = prompt_lines();
    assert_eq!(v.len(), 2);
    assert_eq!(v[0], "Guess the number!");
    assert_eq!(v[1], "Your guess: ");
}

#[test]
fn compare_guess_three_ways() {
    assert_eq!(compare_guess(50, 75), Outcome::TooSmall);
    assert_eq!(compare_guess(50, 10), Outcome::TooBig);
    assert_eq!(compare_guess(42, 42), Outcome::YouWin);
    assert_eq!(compare_guess(1, 2), Outcome::TooSmall);
    assert_eq!(compare_guess(100, 99), Outcome::TooBig);
}

#[test]
fn echo_keeps_the_captured_line_verbatim() {
    assert_eq!(echo_line("50\n"), "You guessed 50\n");
    assert_eq!(echo_line("50"), "You guessed 50");
    assert_eq!(echo_line(""), "You guessed ");
    let echoed = echo_line("  odd input\r\n");
    assert_eq!(&echoed[12..], "  odd input\r\n");
}

#[test]
fn secret_is_always_in_range_and_both_bounds_are_reached() {
    let mut saw_low = false;
    let mut saw_high = false;
    for _ in 0..20000 {
        let n = Round::new().secret();
        assert!((1..=100).contains(&n));
        if n == 1 {
            saw_low = true;
        }
        if n == 100 {
            saw_high = true;
        }
    }
    assert!(saw_low);
    assert!(saw_high);
}

#[test]
fn scenario_guess_below_secret() {
    let round = Round::with_secret(75);
    let report = round.conclude(Some("50\n"));
    assert_eq!(report.lines.len(), 2);
    assert_eq!(report.lines[0], "You guessed 50\n");
    assert_eq!(report.lines[1], "Too small!");
    assert_eq!(report.failure, None);
}

#[test]
fn scenario_guess_above_secret() {
    let round = Round::with_secret(10);
    let report = round.conclude(Some("50\n"));
    assert_eq!(report.lines.len(), 2);
    assert_eq!(report.lines[0], "You guessed 50\n");
    assert_eq!(report.lines[1], "Too big!");
    assert_eq!(report.failure, None);
}

#[test]
fn scenario_guess_equals_secret() {
    let round = Round::with_secret(42);
    let report = round.conclude(Some("42\n"));
    assert_eq!(report.lines.len(), 2);
    assert_eq!(report.lines[0], "You guessed 42\n");
    assert_eq!(report.lines[1], "You win!");
    assert_eq!(report.failure, None);
}

#[test]
fn scenario_no_input_line() {
    let round = Round::with_secret(42);
    let report = round.conclude(None);
    assert_eq!(report.lines.len(), 0);
    assert_eq!(report.failure, Some(RoundError::ReadFailure));
    assert_eq!(
        error_message(RoundError::ReadFailure),
        "Failed to read line"
    );
}

#[test]
fn scenario_non_numeric_guess() {
    let round = Round::with_secret(42);
    let report = round.conclude(Some("fifty\n"));
    assert_eq!(report.lines.len(), 1);
    assert_eq!(report.lines[0], "You guessed fifty\n");
    assert_eq!(report.failure, Some(RoundError::InvalidGuess));
}

#[test]
fn exactly_one_outcome_line_for_every_secret() {
    let outcomes = ["Too small!", "Too big!", "You win!"];
    for secret in 1..=100u32 {
        let round = Round::with_secret(secret);
        let report = round.conclude(Some("50\n"));
        let hits = report
            .lines
            .iter()
            .filter(|l| outcomes.contains(&l.as_str()))
            .count();
        assert_eq!(hits, 1);
    }
}

#[test]
fn with_secret_keeps_the_secret() {
    for secret in [1u32, 50, 100] {
        assert_eq!(Round::with_secret(secret).secret(), secret);
    }
}
