//! A guessing game: the player guesses a secret number from 1 to 100 and is told
//! whether the guess is too small, too big, or right.
use vstd::prelude::*;

use crate::random::random_in_range;

verus! {

/// The answer to a guess.
#[derive(Clone, Copy, Debug, PartialEq, Eq, Structural)]
pub enum GuessReply {
    TooSmall,
    TooBig,
    Match,
}

/// The answer to `guess` when the secret is `secret`.
pub open spec fn reply_for(guess: u32, secret: u32) -> GuessReply {
    if guess < secret {
        GuessReply::TooSmall
    } else if guess > secret {
        GuessReply::TooBig
    } else {
        GuessReply::Match
    }
}

/// The message shown for an answer.
pub open spec fn reply_message(reply: GuessReply) -> Seq<char> {
    match reply {
        GuessReply::TooSmall => "Too small"@,
        GuessReply::TooBig => "Too big"@,
        GuessReply::Match => "Match found"@,
    }
}

/// A new secret number, drawn at random from 1 to 100.
pub fn pick_secret() -> (r: u32)
    ensures
        1 <= r <= 100,
{
    random_in_range(1, 101)
}

/// The answer to `guess` when the secret is `secret`.
pub fn judge(guess: u32, secret: u32) -> (r: GuessReply)
    ensures
        r == reply_for(guess, secret),
{
    if guess < secret {
        GuessReply::TooSmall
    } else if guess > secret {
        GuessReply::TooBig
    } else {
        GuessReply::Match
    }
}

/// The message shown for an answer.
pub fn message(reply: GuessReply) -> (r: String)
    ensures
        r@ == reply_message(reply),
{
    match reply {
        GuessReply::TooSmall => "Too small".to_owned(),
        GuessReply::TooBig => "Too big".to_owned(),
        GuessReply::Match => "Match found".to_owned(),
    }
}

/// Law: a guess matches exactly when it equals the secret, and otherwise the answer
/// tells on which side of the guess the secret lies.
pub proof fn law_reply_points_to_secret(guess: u32, secret: u32)
    ensures
        reply_for(guess, secret) == GuessReply::Match <==> guess == secret,
        reply_for(guess, secret) == GuessReply::TooSmall <==> secret > guess,
        reply_for(guess, secret) == GuessReply::TooBig <==> secret < guess,
{
}

} // verus!
