//! The three counters of a game: points, lives and the best score so far.

use vstd::prelude::*;

use crate::decimal::{decimal, format_decimal, lemma_decimal_round_trip, parse_decimal, read_decimal};

verus! {

/// The number of lives that a session starts with.
pub const STARTING_LIVES: u64 = 3;

/// The points of the running session.
#[derive(Clone, Copy, Debug, PartialEq, Eq, Structural)]
pub struct Scoreboard(u64);

impl View for Scoreboard {
    type V = nat;

    closed spec fn view(&self) -> nat {
        self.0 as nat
    }
}

impl Scoreboard {
    /// A scoreboard without points.
    pub fn new() -> (board: Scoreboard)
        ensures
            board@ == 0,
    {
        Scoreboard(0)
    }

    /// Scores one point.
    pub fn add_point(&mut self)
        requires
            old(self)@ < u64::MAX,
        ensures
            final(self)@ == old(self)@ + 1,
    {
        self.0 += 1;
    }

    /// Takes one point away where there is one to take.
    pub fn remove_point(&mut self)
        ensures
            final(self)@ == after_losses(old(self)@, 1),
            final(self)@ <= old(self)@,
    {
        if self.0 != 0 {
            self.0 -= 1;
        }
    }

    /// The points scored.
    pub fn score(&self) -> (points: u64)
        ensures
            points == self@,
    {
        self.0
    }
}

/// What is left of a count once `lost` were to be taken away from it one by
/// one: the count stops at zero.
pub open spec fn after_losses(count: nat, lost: nat) -> nat {
    if lost <= count {
        (count - lost) as nat
    } else {
        0
    }
}

/// Losing one at a time comes to losing all at once: however many are
/// lost, the count stays at or above zero and at or below where it was.
pub proof fn lemma_lost_one_by_one(count: nat, lost: nat)
    ensures
        after_losses(after_losses(count, lost), 1) == after_losses(count, lost + 1),
        0 <= after_losses(count, lost) <= count,
{
}

/// The lives that the player has left.
#[derive(Clone, Copy, Debug, PartialEq, Eq, Structural)]
pub struct Lives(u64);

impl View for Lives {
    type V = nat;

    closed spec fn view(&self) -> nat {
        self.0 as nat
    }
}

impl Lives {
    /// The lives of a fresh session.
    pub fn new() -> (lives: Lives)
        ensures
            lives@ == STARTING_LIVES,
    {
        Lives(STARTING_LIVES)
    }

    /// Gives one life.
    pub fn add_life(&mut self)
        requires
            old(self)@ < u64::MAX,
        ensures
            final(self)@ == old(self)@ + 1,
    {
        self.0 += 1;
    }

    /// Takes one life. There must be one: a player without lives is dead
    /// and loses nothing more.
    pub fn remove_life(&mut self)
        requires
            old(self)@ > 0,
        ensures
            final(self)@ == old(self)@ - 1,
    {
        self.0 -= 1;
    }

    /// Whether no life is left.
    pub fn is_dead(&self) -> (dead: bool)
        ensures
            dead == (self@ == 0),
    {
        self.0 == 0
    }

    /// The number of lives.
    pub fn count(&self) -> (lives: u64)
        ensures
            lives == self@,
    {
        self.0
    }
}

/// What happens to the best score when a session ends.
#[derive(Clone, Copy, Debug, PartialEq, Eq, Structural)]
pub enum HighScorePolicy {
    /// The best score only ever rises.
    KeepBest,
    /// The score of the session that ended last replaces whatever was there.
    Overwrite,
}

/// The best score, as it is kept between runs of the game.
#[derive(Clone, Copy, Debug, PartialEq, Eq, Structural)]
pub struct HighScore {
    pub value: u64,
}

/// The best score after a session that ended with `score`.
pub open spec fn recorded(best: nat, score: nat, policy: HighScorePolicy) -> nat {
    match policy {
        HighScorePolicy::KeepBest => if score > best {
            score
        } else {
            best
        },
        HighScorePolicy::Overwrite => score,
    }
}

/// The best score that stored bytes stand for: the number they spell, and
/// zero where they spell none.
pub open spec fn stored_value(bytes: Seq<u8>) -> u64 {
    match parse_decimal(bytes) {
        Some(value) => value,
        None => 0,
    }
}

impl HighScore {
    /// Takes note of the score of a session that has ended.
    pub fn record(&mut self, score: u64, policy: HighScorePolicy)
        ensures
            final(self).value == recorded(old(self).value as nat, score as nat, policy),
            policy == HighScorePolicy::KeepBest ==> final(self).value >= old(self).value,
    {
        match policy {
            HighScorePolicy::KeepBest => {
                if score > self.value {
                    self.value = score;
                }
            },
            HighScorePolicy::Overwrite => {
                self.value = score;
            },
        }
    }

    /// Reads a best score back from what was stored. Anything but a decimal
    /// number that fits gives a best score of zero.
    pub fn from_bytes(bytes: &[u8]) -> (best: HighScore)
        ensures
            best.value == stored_value(bytes@),
    {
        match read_decimal(bytes) {
            Some(value) => HighScore { value },
            None => HighScore { value: 0 },
        }
    }

    /// The bytes to store: the value in decimal digits and nothing else.
    /// Reading them back gives the same best score.
    pub fn to_bytes(&self) -> (bytes: Vec<u8>)
        ensures
            bytes@ == decimal(self.value as nat),
            stored_value(bytes@) == self.value,
    {
        proof {
            lemma_decimal_round_trip(self.value);
        }
        format_decimal(self.value)
    }
}

} // verus!
