//! The verdict of one round of a number-guessing game. Drawing the secret
//! and reading guesses is the surrounding program's business; the
//! comparison is decided here.

use vstd::prelude::*;

verus! {

/// How a guess relates to the secret.
#[derive(Debug, PartialEq, Eq, Structural)]
pub enum GuessOutcome {
    TooSmall,
    TooBig,
    Win,
}

/// Compare a guess with the secret number.
pub fn guess_outcome(guess: u32, secret: u32) -> (r: GuessOutcome)
    ensures
        r == (if guess < secret {
            GuessOutcome::TooSmall
        } else if guess > secret {
            GuessOutcome::TooBig
        } else {
            GuessOutcome::Win
        }),
{
    if guess < secret {
        GuessOutcome::TooSmall
    } else if guess > secret {
        GuessOutcome::TooBig
    } else {
        GuessOutcome::Win
    }
}

} // verus!
