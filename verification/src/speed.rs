//! The fall speed, and how the score drives it up.

use vstd::prelude::*;

use crate::scoreboard::Scoreboard;

verus! {

/// The fall speed at the start: one pixel per tick.
pub const STARTING_SPEED: u64 = 100;

/// How far everything that falls drops in one tick, in hundredths of a
/// pixel, and the score from which on the speed may rise.
#[derive(Clone, Copy, Debug, PartialEq, Eq, Structural)]
pub struct Speed {
    pub last_increased_at: u64,
    pub value: u64,
}

/// By how much the speed rises, as a step function of the threshold: a
/// quarter pixel below 100, half a pixel below 200, three quarters below
/// 350, four fifths below 500, and a whole pixel from there on.
pub open spec fn bonus(last_increased_at: u64) -> u64 {
    if last_increased_at < 100 {
        25
    } else if last_increased_at < 200 {
        50
    } else if last_increased_at < 350 {
        75
    } else if last_increased_at < 500 {
        80
    } else {
        100
    }
}

/// The speed after one rise. The threshold stays where it is, so the size
/// of the step does not change either. A speed at the top of its range
/// stays there.
pub open spec fn sped_up(speed: Speed) -> Speed {
    let raised = speed.value + bonus(speed.last_increased_at);
    Speed {
        last_increased_at: speed.last_increased_at,
        value: if raised <= u64::MAX {
            raised as u64
        } else {
            u64::MAX
        },
    }
}

/// Whether a score calls for a rise: it is a positive multiple of ten and
/// has reached the threshold.
pub open spec fn rise_due(speed: Speed, score: nat) -> bool {
    score > 0 && score % 10 == 0 && score >= speed.last_increased_at
}

/// The speed after a point has brought the score to `score`.
pub open spec fn after_point(speed: Speed, score: nat) -> Speed {
    if rise_due(speed, score) {
        sped_up(speed)
    } else {
        speed
    }
}

/// The speed after `stars` points scored one by one from `score` on.
pub open spec fn after_points(speed: Speed, score: nat, stars: nat) -> Speed
    decreases stars,
{
    if stars == 0 {
        speed
    } else {
        after_point(after_points(speed, score, (stars - 1) as nat), score + stars)
    }
}

/// Points never slow the fall down, and never move the threshold.
pub proof fn lemma_points_never_slow(speed: Speed, score: nat, stars: nat)
    ensures
        after_points(speed, score, stars).value >= speed.value,
        after_points(speed, score, stars).last_increased_at == speed.last_increased_at,
    decreases stars,
{
    if stars > 0 {
        lemma_points_never_slow(speed, score, (stars - 1) as nat);
    }
}

/// More points leave the fall at least as fast as fewer do.
pub proof fn lemma_speed_rises_with_points(speed: Speed, score: nat, fewer: nat, more: nat)
    requires
        fewer <= more,
    ensures
        after_points(speed, score, fewer).value <= after_points(speed, score, more).value,
    decreases more,
{
    if fewer < more {
        lemma_speed_rises_with_points(speed, score, fewer, (more - 1) as nat);
    }
}

impl Speed {
    /// The speed of a first session.
    pub fn new() -> (speed: Speed)
        ensures
            speed == (Speed { last_increased_at: 0, value: STARTING_SPEED }),
    {
        Speed { last_increased_at: 0, value: STARTING_SPEED }
    }

    /// Raises the speed by the bonus of its threshold.
    pub fn increase(&mut self)
        ensures
            *final(self) == sped_up(*old(self)),
            final(self).value >= old(self).value,
    {
        let step: u64 = if self.last_increased_at < 100 {
            25
        } else if self.last_increased_at < 200 {
            50
        } else if self.last_increased_at < 350 {
            75
        } else if self.last_increased_at < 500 {
            80
        } else {
            100
        };
        self.value = if self.value <= u64::MAX - step {
            self.value + step
        } else {
            u64::MAX
        };
    }

    /// Whether the score that was just reached calls for a rise.
    pub fn should_increase(&self, scoreboard: Scoreboard) -> (due: bool)
        ensures
            due == rise_due(*self, scoreboard@),
    {
        let score: u64 = scoreboard.score();
        score > 0 && score % 10 == 0 && score >= self.last_increased_at
    }
}

} // verus!
