use vstd::prelude::*;
use rand::Rng;

verus! {

/// The smallest secret number.
pub const SECRET_MIN: u32 = 1;

/// The end of the secret numbers: the first number that is never the secret.
pub const SECRET_END: u32 = 101;

/// A guess that is below the secret by no more than this is only slightly
/// too small.
pub const NEAR_MARGIN: u32 = 5;

/// What the game says of a guess.
#[derive(Clone, Copy, Debug, PartialEq, Eq, Structural)]
pub enum Verdict {
    TooSmall,
    SlightlySmall,
    TooBig,
    Correct,
}

/// How the game takes a guess that moves away from the secret: the first
/// one is answered with a warning, the second ends the game.
#[derive(Clone, Copy, Debug, PartialEq, Eq, Structural)]
pub enum Patience {
    Kept,
    Warned,
    Lost,
}

/// A game in progress: the secret, the last guess (0 before the first) and
/// whether the player has been warned.
#[derive(Clone, Copy, Debug, PartialEq, Eq, Structural)]
pub struct GuessingGame {
    pub secret: u32,
    pub prev: u32,
    pub warned: bool,
}

/// Draws a number from `low..high` with `gen_range` of rand's thread-local
/// generator. Taken on trust: the number lies in the range, whichever it is.
#[verifier::external_body]
pub(crate) fn random_in_range(low: u32, high: u32) -> (r: u32)
    requires
        low < high,
    ensures
        low <= r < high,
{
    rand::thread_rng().gen_range(low..high)
}

/// What the game says of `guess` when the secret is `secret`.
pub open spec fn verdict_of(guess: u32, secret: u32) -> Verdict {
    if guess == secret {
        Verdict::Correct
    } else if guess > secret {
        Verdict::TooBig
    } else if guess < secret - NEAR_MARGIN {
        Verdict::TooSmall
    } else {
        Verdict::SlightlySmall
    }
}

/// Whether `guess` lies farther from the secret than the guess before it,
/// on the same side.
pub open spec fn moves_away(prev: u32, secret: u32, guess: u32) -> bool {
    (prev < secret && guess < prev) || (prev > secret && guess > prev)
}

/// The game after a guess: a correct guess leaves it as it is; any other
/// becomes the last guess, and one that moves away from the secret leaves the
/// player warned.
pub open spec fn game_after(game: GuessingGame, guess: u32) -> GuessingGame {
    if guess == game.secret {
        game
    } else {
        GuessingGame {
            secret: game.secret,
            prev: guess,
            warned: game.warned || moves_away(game.prev, game.secret, guess),
        }
    }
}

/// How the game takes `guess`.
pub open spec fn patience_after(game: GuessingGame, guess: u32) -> Patience {
    if guess == game.secret || !moves_away(game.prev, game.secret, guess) {
        Patience::Kept
    } else if game.warned {
        Patience::Lost
    } else {
        Patience::Warned
    }
}

/// Judges a guess.
pub fn judge_guess(guess: u32, secret: u32) -> (v: Verdict)
    requires
        secret >= NEAR_MARGIN,
    ensures
        v == verdict_of(guess, secret),
{
    let minus: u32 = secret - NEAR_MARGIN;
    if guess < secret {
        if guess < minus {
            Verdict::TooSmall
        } else {
            Verdict::SlightlySmall
        }
    } else if guess > secret {
        Verdict::TooBig
    } else {
        Verdict::Correct
    }
}

impl GuessingGame {
    /// A game with the given secret and no guess made.
    pub fn new(secret: u32) -> (game: GuessingGame)
        ensures
            game == (GuessingGame { secret, prev: 0, warned: false }),
    {
        GuessingGame { secret, prev: 0, warned: false }
    }

    /// A game with a secret drawn at random from `SECRET_MIN..SECRET_END`.
    pub fn start() -> (game: GuessingGame)
        ensures
            SECRET_MIN <= game.secret < SECRET_END,
            game.prev == 0,
            !game.warned,
    {
        GuessingGame::new(random_in_range(SECRET_MIN, SECRET_END))
    }

    /// Takes one guess: says what the game makes of it and how it takes it.
    pub fn take_guess(&mut self, guess: u32) -> (r: (Verdict, Patience))
        requires
            old(self).secret >= NEAR_MARGIN,
        ensures
            r.0 == verdict_of(guess, old(self).secret),
            r.1 == patience_after(*old(self), guess),
            *final(self) == game_after(*old(self), guess),
    {
        let verdict = judge_guess(guess, self.secret);
        if guess == self.secret {
            return (verdict, Patience::Kept);
        }
        let mut patience = Patience::Kept;
        if (self.prev < self.secret && guess < self.prev) || (self.prev > self.secret && guess
            > self.prev) {
            if self.warned {
                patience = Patience::Lost;
            } else {
                patience = Patience::Warned;
            }
            self.warned = true;
        }
        self.prev = guess;
        (verdict, patience)
    }
}

} // verus!
