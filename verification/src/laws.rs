//! What holds of every run of the game, whatever the order of its steps.

use vstd::prelude::*;

use crate::scoreboard::STARTING_LIVES;
use crate::speed::lemma_points_never_slow;
use crate::entity::ObjectKind;
use crate::world::{escapes, is_caught, is_missed, stays_up, GameState, KeyOutcome, WorldView};

verus! {

/// One step of the simulation, with what it is given from outside.
pub enum Step {
    /// The keys that stop and start the game are read.
    Keys { pause: bool, resume: bool },
    /// The player's death is looked for.
    Death,
    /// A spawn is due at `x`.
    Spawn { x: i64, heart_rolled: bool },
    /// Everything in the air drops.
    Gravity,
    /// The paddle catches what it overlaps.
    Catches,
    /// What has come down on a wall is counted as missed.
    Misses,
    /// The direction keys are read.
    Input { left: bool, right: bool },
    /// The walls hold the paddle back.
    Steering,
    /// The paddle makes its move.
    Move,
}

impl Step {
    /// Whether the step can begin a new session: it reads the keys and
    /// finds the resume key held.
    pub open spec fn may_restart(self) -> bool {
        match self {
            Step::Keys { pause, resume } => resume,
            _ => false,
        }
    }

    /// Whether the step is one of those that stand still while the game is
    /// at rest: a spawn, the fall, or the reading of the direction keys.
    pub open spec fn waits_for_play(self) -> bool {
        match self {
            Step::Spawn { x, heart_rolled } => true,
            Step::Gravity => true,
            Step::Input { left, right } => true,
            _ => false,
        }
    }
}

impl WorldView {
    /// The game after one step.
    pub open spec fn after(self, step: Step) -> WorldView {
        match step {
            Step::Keys { pause, resume } => self.after_keys(pause, resume),
            Step::Death => self.after_death(),
            Step::Spawn { x, heart_rolled } => self.after_spawn(x, heart_rolled),
            Step::Gravity => self.after_gravity(),
            Step::Catches => self.after_catches(),
            Step::Misses => self.after_misses(),
            Step::Input { left, right } => self.after_input(left, right),
            Step::Steering => self.after_steering(),
            Step::Move => self.after_move(),
        }
    }

    /// The game after a run of steps, taken in order.
    pub open spec fn after_all(self, steps: Seq<Step>) -> WorldView
        decreases steps.len(),
    {
        if steps.len() == 0 {
            self
        } else {
            self.after_all(steps.drop_last()).after(steps.last())
        }
    }

    /// Whether the session has ended and no new one has begun: the game is
    /// at rest after a death, without lives and with nothing in the air.
    pub open spec fn is_over(self) -> bool {
        &&& self.state == GameState::NotRunning
        &&& self.stopped_by_death
        &&& self.lives == 0
        &&& self.objects.len() == 0
    }
}

/// With nothing in the air, nothing is caught and nothing is missed.
proof fn lemma_empty_air(world: WorldView)
    requires
        world.objects.len() == 0,
    ensures
        world.after_catches() == world,
        world.after_misses() == world,
{
    let air = world.objects;
    air.lemma_filter_len(is_caught(world.player, ObjectKind::Star));
    air.lemma_filter_len(is_caught(world.player, ObjectKind::Heart));
    air.lemma_filter_len(escapes(world.player));
    air.lemma_filter_len(is_missed(world.arena, ObjectKind::Star));
    air.lemma_filter_len(is_missed(world.arena, ObjectKind::Heart));
    air.lemma_filter_len(stays_up(world.arena));
    assert(air.filter(escapes(world.player)) =~= air);
    assert(air.filter(stays_up(world.arena)) =~= air);
}

/// No step slows the fall down or moves the threshold from which the speed
/// may rise.
pub proof fn lemma_step_never_slows(world: WorldView, step: Step)
    ensures
        world.after(step).speed.value >= world.speed.value,
        world.after(step).speed.last_increased_at == world.speed.last_increased_at,
{
    lemma_points_never_slow(world.speed, world.score, world.caught(ObjectKind::Star));
}

/// The fall speed never drops, whatever the game goes through: not within
/// a session, and not from one session to the next.
pub proof fn lemma_speed_never_falls(world: WorldView, steps: Seq<Step>)
    ensures
        world.after_all(steps).speed.value >= world.speed.value,
        world.after_all(steps).speed.last_increased_at == world.speed.last_increased_at,
    decreases steps.len(),
{
    if steps.len() > 0 {
        lemma_speed_never_falls(world, steps.drop_last());
        lemma_step_never_slows(world.after_all(steps.drop_last()), steps.last());
    }
}

/// A step lowers the score only where it counts misses or begins a new
/// session.
pub proof fn lemma_step_keeps_score(world: WorldView, step: Step)
    requires
        step != Step::Misses,
        !step.may_restart(),
    ensures
        world.after(step).score >= world.score,
{
}

/// Catching never lowers the score: through any run of steps that counts
/// no misses and begins no new session, the score only rises or stays.
pub proof fn lemma_score_never_falls(world: WorldView, steps: Seq<Step>)
    requires
        forall|i: int|
            0 <= i < steps.len() ==> (#[trigger] steps[i]) != Step::Misses
                && !steps[i].may_restart(),
    ensures
        world.after_all(steps).score >= world.score,
    decreases steps.len(),
{
    if steps.len() > 0 {
        let front = steps.drop_last();
        assert forall|i: int| 0 <= i < front.len() implies (#[trigger] front[i]) != Step::Misses
            && !front[i].may_restart() by {
            assert(front[i] == steps[i]);
        }
        lemma_score_never_falls(world, front);
        lemma_step_keeps_score(world.after_all(front), steps.last());
    }
}

/// Missing lowers score and lives by what was missed and never below
/// zero: a count that has run out stays at zero.
pub proof fn lemma_misses_stop_at_zero(world: WorldView)
    ensures
        0 <= world.after_misses().score <= world.score,
        0 <= world.after_misses().lives <= world.lives,
        world.score >= world.missed(ObjectKind::Heart) ==> world.after_misses().score
            == world.score - world.missed(ObjectKind::Heart),
        world.score < world.missed(ObjectKind::Heart) ==> world.after_misses().score == 0,
        world.lives >= world.missed(ObjectKind::Star) ==> world.after_misses().lives
            == world.lives - world.missed(ObjectKind::Star),
        world.lives < world.missed(ObjectKind::Star) ==> world.after_misses().lives == 0,
{
}

/// A death is dealt with once: the step that has ended a session finds no
/// death when it is taken again, and leaves the game over.
pub proof fn lemma_death_fires_once(world: WorldView)
    ensures
        !world.after_death().dying(),
        world.after_death().after_death() == world.after_death(),
        world.dying() ==> world.after_death().is_over(),
{
}

/// Once a session has ended, a step that does not restart the game leaves
/// it over, and leaves score, best score and speed as they are.
pub proof fn lemma_step_stays_over(world: WorldView, step: Step)
    requires
        world.is_over(),
        !step.may_restart(),
    ensures
        world.after(step).is_over(),
        !world.after(step).dying(),
        world.after(step).score == world.score,
        world.after(step).high_score == world.high_score,
        world.after(step).speed == world.speed,
{
    lemma_empty_air(world);
}

/// There is one death to a session: from the end of a session until the
/// resume key is held, no run of steps brings about another death, takes a
/// life below zero or touches the score that the session ended with.
pub proof fn lemma_one_death_per_session(world: WorldView, steps: Seq<Step>)
    requires
        world.is_over(),
        forall|i: int| 0 <= i < steps.len() ==> !(#[trigger] steps[i]).may_restart(),
    ensures
        world.after_all(steps).is_over(),
        !world.after_all(steps).dying(),
        world.after_all(steps).score == world.score,
        world.after_all(steps).high_score == world.high_score,
        world.after_all(steps).speed == world.speed,
    decreases steps.len(),
{
    if steps.len() > 0 {
        let front = steps.drop_last();
        assert forall|i: int| 0 <= i < front.len() implies !(#[trigger] front[i]).may_restart() by {
            assert(front[i] == steps[i]);
        }
        lemma_one_death_per_session(world, front);
        lemma_step_stays_over(world.after_all(front), steps.last());
    }
}

/// While the game is at rest, falling and spawning change nothing, however
/// many ticks go by, and the paddle does not listen to the direction keys.
pub proof fn lemma_rest_changes_nothing(world: WorldView, steps: Seq<Step>)
    requires
        world.state == GameState::NotRunning,
        forall|i: int| 0 <= i < steps.len() ==> (#[trigger] steps[i]).waits_for_play(),
    ensures
        world.after_all(steps) == world,
    decreases steps.len(),
{
    if steps.len() > 0 {
        let front = steps.drop_last();
        assert forall|i: int| 0 <= i < front.len() implies (#[trigger] front[i]).waits_for_play() by {
            assert(front[i] == steps[i]);
        }
        lemma_rest_changes_nothing(world, front);
        assert(steps.last().waits_for_play());
    }
}

/// Resuming after a pause changes nothing but the state. Resuming after a
/// death begins a new session: score and lives start over, and the death
/// is forgotten. In both cases nothing else changes.
pub proof fn lemma_resume(world: WorldView, pause: bool)
    requires
        world.state == GameState::NotRunning,
    ensures
        !world.stopped_by_death ==> world.after_keys(pause, true) == (WorldView {
            state: GameState::Running,
            ..world
        }),
        world.stopped_by_death ==> world.after_keys(pause, true) == (WorldView {
            state: GameState::Running,
            stopped_by_death: false,
            score: 0,
            lives: STARTING_LIVES as nat,
            ..world
        }),
        world.key_outcome(pause, true) != KeyOutcome::Ignored,
{
}

} // verus!
