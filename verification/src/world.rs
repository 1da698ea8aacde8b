//! The game as one value, and the steps that a tick is made of.
//!
//! Every step is a method of [`World`] and is specified by a function on
//! the world's view, so that what a run of steps does can be reasoned about
//! without the machine's limits in the way.

use vstd::prelude::*;

use crate::chance::random_in_range;
use crate::entity::{
    spawn_player, Arena, FallingObject, ObjectKind, Player, PLAYER_START_X, PLAYER_START_Y,
    SPAWN_X_END, SPAWN_X_MIN, SPAWN_Y,
};
use crate::scoreboard::{
    after_losses, recorded, HighScore, HighScorePolicy, Lives, Scoreboard, STARTING_LIVES,
};
use crate::speed::{after_points, lemma_points_never_slow, Speed, STARTING_SPEED};

verus! {

/// The score from which on hearts may fall.
pub const HEART_THRESHOLD: u64 = 50;

/// The lowest number that the roll for a heart can show.
pub const ROLL_MIN: i64 = 1;

/// The end of the roll's range; the roll never shows it.
pub const ROLL_END: i64 = 100;

/// The one number of the roll that lets a heart fall.
pub const HEART_ROLL: i64 = 5;

/// Whether the game is under way.
#[derive(Clone, Copy, Debug, PartialEq, Eq, Structural)]
pub enum GameState {
    Running,
    NotRunning,
}

impl GameState {
    /// The other state.
    pub open spec fn flipped(self) -> GameState {
        match self {
            GameState::Running => GameState::NotRunning,
            GameState::NotRunning => GameState::Running,
        }
    }

    /// Whether the game stands still.
    pub fn is_not_running(self) -> (still: bool)
        ensures
            still == (self == GameState::NotRunning),
    {
        match self {
            GameState::Running => false,
            GameState::NotRunning => true,
        }
    }

    /// Goes over to the other state.
    pub fn flip(&mut self)
        ensures
            *final(self) == old(self).flipped(),
    {
        *self = match *self {
            GameState::Running => GameState::NotRunning,
            GameState::NotRunning => GameState::Running,
        };
    }
}

/// What the two keys that stop and start the game have brought about.
#[derive(Clone, Copy, Debug, PartialEq, Eq, Structural)]
pub enum KeyOutcome {
    /// Nothing: no key was held that the state listens to.
    Ignored,
    /// The running game was stopped.
    Paused,
    /// The game goes on where it was stopped.
    Resumed,
    /// A new session has begun after the player's death.
    Restarted,
}

/// The whole state of the game.
#[derive(Clone, Debug, PartialEq, Eq)]
pub struct World {
    pub state: GameState,
    /// Set from the player's death until the next session begins.
    pub stopped_by_death: bool,
    pub scoreboard: Scoreboard,
    pub lives: Lives,
    pub high_score: HighScore,
    pub policy: HighScorePolicy,
    pub speed: Speed,
    pub player: Player,
    /// The stars and hearts in the air, oldest first.
    pub objects: Vec<FallingObject>,
    pub arena: Arena,
}

/// The state of the game as a mathematical value.
pub struct WorldView {
    pub state: GameState,
    pub stopped_by_death: bool,
    pub score: nat,
    pub lives: nat,
    pub high_score: nat,
    pub policy: HighScorePolicy,
    pub speed: Speed,
    pub player: Player,
    pub objects: Seq<FallingObject>,
    pub arena: Arena,
}

impl View for World {
    type V = WorldView;

    open spec fn view(&self) -> WorldView {
        WorldView {
            state: self.state,
            stopped_by_death: self.stopped_by_death,
            score: self.scoreboard@,
            lives: self.lives@,
            high_score: self.high_score.value as nat,
            policy: self.policy,
            speed: self.speed,
            player: self.player,
            objects: self.objects@,
            arena: self.arena,
        }
    }
}

/// The paddle as it stands at the start of a session.
pub open spec fn fresh_player() -> Player {
    Player { x: PLAYER_START_X, y: PLAYER_START_Y, delta: 0 }
}

/// The game before its first session: at rest, with full lives and nothing
/// in the air.
pub open spec fn initial_world(high_score: nat, policy: HighScorePolicy, arena: Arena) -> WorldView {
    WorldView {
        state: GameState::NotRunning,
        stopped_by_death: false,
        score: 0,
        lives: STARTING_LIVES as nat,
        high_score,
        policy,
        speed: Speed { last_increased_at: 0, value: STARTING_SPEED },
        player: fresh_player(),
        objects: Seq::empty(),
        arena,
    }
}

/// Picks the objects of one kind that overlap the paddle.
pub open spec fn is_caught(player: Player, kind: ObjectKind) -> spec_fn(FallingObject) -> bool {
    |object: FallingObject| object.kind == kind && player.bounds().overlaps(object.bounds())
}

/// Picks the objects that the paddle does not overlap.
pub open spec fn escapes(player: Player) -> spec_fn(FallingObject) -> bool {
    |object: FallingObject| !player.bounds().overlaps(object.bounds())
}

/// Picks the objects of one kind that have come down on a wall.
pub open spec fn is_missed(arena: Arena, kind: ObjectKind) -> spec_fn(FallingObject) -> bool {
    |object: FallingObject| object.kind == kind && arena.grounds(object)
}

/// Picks the objects that are still in the air.
pub open spec fn stays_up(arena: Arena) -> spec_fn(FallingObject) -> bool {
    |object: FallingObject| !arena.grounds(object)
}

/// Maps an object to where it is one tick later.
pub open spec fn falls_at(speed: u64) -> spec_fn(FallingObject) -> FallingObject {
    |object: FallingObject| object.fallen(speed)
}

impl WorldView {
    /// What the stop and start keys bring about. A running game listens to
    /// the pause key only, a game at rest to the resume key only.
    pub open spec fn key_outcome(self, pause: bool, resume: bool) -> KeyOutcome {
        match self.state {
            GameState::Running => if pause {
                KeyOutcome::Paused
            } else {
                KeyOutcome::Ignored
            },
            GameState::NotRunning => if !resume {
                KeyOutcome::Ignored
            } else if self.stopped_by_death {
                KeyOutcome::Restarted
            } else {
                KeyOutcome::Resumed
            },
        }
    }

    /// The game after the stop and start keys were read. Resuming after a
    /// death begins a new session: score and lives start over. Resuming
    /// after a pause changes nothing but the state.
    pub open spec fn after_keys(self, pause: bool, resume: bool) -> WorldView {
        match self.key_outcome(pause, resume) {
            KeyOutcome::Ignored => self,
            KeyOutcome::Paused => WorldView { state: GameState::NotRunning, ..self },
            KeyOutcome::Resumed => WorldView { state: GameState::Running, ..self },
            KeyOutcome::Restarted => WorldView {
                state: GameState::Running,
                stopped_by_death: false,
                score: 0,
                lives: STARTING_LIVES as nat,
                ..self
            },
        }
    }

    /// Whether the player has just died: no life is left and the death has
    /// not been dealt with yet.
    pub open spec fn dying(self) -> bool {
        self.lives == 0 && !self.stopped_by_death
    }

    /// The game after the player's death was looked for. A death ends the
    /// session: the game stops, the air is cleared, the score goes into the
    /// best score and a fresh paddle stands ready.
    pub open spec fn after_death(self) -> WorldView {
        if self.dying() {
            WorldView {
                state: GameState::NotRunning,
                stopped_by_death: true,
                high_score: recorded(self.high_score, self.score, self.policy),
                player: fresh_player(),
                objects: Seq::empty(),
                ..self
            }
        } else {
            self
        }
    }

    /// What starts to fall: a heart where the roll says so and the score
    /// has reached the threshold, a star otherwise.
    pub open spec fn spawned_kind(self, heart_rolled: bool) -> ObjectKind {
        if heart_rolled && self.score >= HEART_THRESHOLD {
            ObjectKind::Heart
        } else {
            ObjectKind::Star
        }
    }

    /// The game after a spawn is due at `x`. Nothing starts to fall while
    /// the game is at rest.
    pub open spec fn after_spawn(self, x: i64, heart_rolled: bool) -> WorldView {
        match self.state {
            GameState::NotRunning => self,
            GameState::Running => WorldView {
                objects: self.objects.push(
                    FallingObject { kind: self.spawned_kind(heart_rolled), x, y: SPAWN_Y },
                ),
                ..self
            },
        }
    }

    /// The game after everything in the air has dropped for one tick.
    /// Nothing drops while the game is at rest.
    pub open spec fn after_gravity(self) -> WorldView {
        match self.state {
            GameState::NotRunning => self,
            GameState::Running => WorldView {
                objects: self.objects.map_values(falls_at(self.speed.value)),
                ..self
            },
        }
    }

    /// How many objects of one kind the paddle overlaps.
    pub open spec fn caught(self, kind: ObjectKind) -> nat {
        self.objects.filter(is_caught(self.player, kind)).len()
    }

    /// The game after the paddle has caught what it overlaps: a point for
    /// each star, with the speed following the score point by point, a
    /// life for each heart, and what was caught gone from the air.
    pub open spec fn after_catches(self) -> WorldView {
        WorldView {
            score: self.score + self.caught(ObjectKind::Star),
            lives: self.lives + self.caught(ObjectKind::Heart),
            speed: after_points(self.speed, self.score, self.caught(ObjectKind::Star)),
            objects: self.objects.filter(escapes(self.player)),
            ..self
        }
    }

    /// How many objects of one kind have come down on a wall.
    pub open spec fn missed(self, kind: ObjectKind) -> nat {
        self.objects.filter(is_missed(self.arena, kind)).len()
    }

    /// The game after what came down on a wall was counted as missed: a
    /// life for each star as long as there are lives, a point for each
    /// heart as long as there are points, and what was missed gone from
    /// the air.
    pub open spec fn after_misses(self) -> WorldView {
        WorldView {
            score: after_losses(self.score, self.missed(ObjectKind::Heart)),
            lives: after_losses(self.lives, self.missed(ObjectKind::Star)),
            objects: self.objects.filter(stays_up(self.arena)),
            ..self
        }
    }

    /// The game after the direction keys were read. The paddle does not
    /// listen while the game is at rest.
    pub open spec fn after_input(self, left: bool, right: bool) -> WorldView {
        match self.state {
            GameState::NotRunning => self,
            GameState::Running => WorldView { player: self.player.pushed(left, right), ..self },
        }
    }

    /// The game after the walls have held the paddle back.
    pub open spec fn after_steering(self) -> WorldView {
        WorldView { player: self.player.steered(self.arena), ..self }
    }

    /// The game after the paddle has made the move that was due.
    pub open spec fn after_move(self) -> WorldView {
        WorldView { player: self.player.settled(), ..self }
    }
}

/// Whether a roll lets a heart fall: one number of the roll's range does.
pub fn heart_rolled(roll: i64) -> (heart: bool)
    ensures
        heart == (roll == HEART_ROLL),
{
    roll == HEART_ROLL
}

impl World {
    /// The game before its first session, with the best score of earlier
    /// runs.
    pub fn new(high_score: HighScore, policy: HighScorePolicy, arena: Arena) -> (world: World)
        ensures
            world@ == initial_world(high_score.value as nat, policy, arena),
    {
        World {
            state: GameState::NotRunning,
            stopped_by_death: false,
            scoreboard: Scoreboard::new(),
            lives: Lives::new(),
            high_score,
            policy,
            speed: Speed::new(),
            player: spawn_player(),
            objects: Vec::new(),
            arena,
        }
    }

    /// Reads the keys that stop and start the game, and says what they
    /// brought about.
    pub fn global_keyinput_handler(&mut self, pause: bool, resume: bool) -> (outcome: KeyOutcome)
        ensures
            outcome == old(self)@.key_outcome(pause, resume),
            final(self)@ == old(self)@.after_keys(pause, resume),
    {
        match self.state {
            GameState::Running => {
                if pause {
                    self.state.flip();
                    KeyOutcome::Paused
                } else {
                    KeyOutcome::Ignored
                }
            },
            GameState::NotRunning => {
                if !resume {
                    KeyOutcome::Ignored
                } else {
                    self.state.flip();
                    if self.stopped_by_death {
                        self.lives = Lives::new();
                        self.scoreboard = Scoreboard::new();
                        self.stopped_by_death = false;
                        KeyOutcome::Restarted
                    } else {
                        KeyOutcome::Resumed
                    }
                }
            },
        }
    }

    /// Looks for the player's death and ends the session on it. Says
    /// whether it did: a death is dealt with once, and not again before a
    /// new session has begun.
    pub fn handle_player_death(&mut self) -> (died: bool)
        ensures
            died == old(self)@.dying(),
            final(self)@ == old(self)@.after_death(),
            died ==> !final(self)@.dying(),
    {
        if self.lives.is_dead() && !self.stopped_by_death {
            self.stopped_by_death = true;
            self.objects.clear();
            self.state = GameState::NotRunning;
            self.high_score.record(self.scoreboard.score(), self.policy);
            self.player = spawn_player();
            true
        } else {
            false
        }
    }

    /// Lets a star or a heart start to fall at `x`, if the game is under
    /// way. `heart_rolled` says whether the roll was for a heart; below the
    /// threshold a star falls all the same.
    pub fn spawn_falling_object_at(&mut self, x: i64, heart_rolled: bool)
        ensures
            final(self)@ == old(self)@.after_spawn(x, heart_rolled),
    {
        if self.state.is_not_running() {
            return;
        }
        let kind = if heart_rolled && self.scoreboard.score() >= HEART_THRESHOLD {
            ObjectKind::Heart
        } else {
            ObjectKind::Star
        };
        self.objects.push(FallingObject { kind, x, y: SPAWN_Y });
    }

    /// Lets a star or a heart start to fall at a place drawn by chance, if
    /// the game is under way. A heart is rolled for only once the score
    /// has reached the threshold.
    pub fn spawn_falling_object(&mut self)
        ensures
            exists|x: i64, heart: bool|
                SPAWN_X_MIN <= x < SPAWN_X_END && final(self)@ == #[trigger] old(self)@.after_spawn(
                    x,
                    heart,
                ),
            old(self).state == GameState::NotRunning ==> final(self)@ == old(self)@,
            old(self).state == GameState::Running && old(self)@.score < HEART_THRESHOLD ==> exists|
                x: i64,
            |
                SPAWN_X_MIN <= x < SPAWN_X_END && final(self)@.objects == old(self)@.objects.push(
                    #[trigger] star_at(x),
                ),
    {
        if self.state.is_not_running() {
            assert(self@ == self@.after_spawn(SPAWN_X_MIN, false));
            return;
        }
        let x: i64 = random_in_range(SPAWN_X_MIN, SPAWN_X_END);
        let heart: bool = self.scoreboard.score() >= HEART_THRESHOLD && heart_rolled(
            random_in_range(ROLL_MIN, ROLL_END),
        );
        self.spawn_falling_object_at(x, heart);
        assert(self@ == old(self)@.after_spawn(x, heart));
        assert(old(self)@.score < HEART_THRESHOLD ==> self@.objects == old(self)@.objects.push(
            star_at(x),
        ));
    }

    /// Lets everything in the air drop by the fall speed, if the game is
    /// under way.
    pub fn falling_object_gravity(&mut self)
        ensures
            final(self)@ == old(self)@.after_gravity(),
    {
        if self.state.is_not_running() {
            return;
        }
        let ghost before = self@;
        let n: usize = self.objects.len();
        let mut dropped: Vec<FallingObject> = Vec::new();
        let mut i: usize = 0;
        while i < n
            invariant
                i <= n,
                n == self.objects@.len(),
                self@ == before,
                dropped@.len() == i,
                forall|j: int|
                    0 <= j < i ==> dropped@[j] == (#[trigger] before.objects[j]).fallen(
                        before.speed.value,
                    ),
            decreases n - i,
        {
            let mut object: FallingObject = self.objects[i];
            object.fall(self.speed.value);
            dropped.push(object);
            i += 1;
        }
        assert(dropped@ =~= before.objects.map_values(falls_at(before.speed.value)));
        self.objects = dropped;
    }

    /// Lets the paddle catch whatever it overlaps: a star scores a point
    /// and may raise the speed, a heart gives a life, and either is gone.
    pub fn handle_player_falling_object_collision(&mut self)
        requires
            old(self)@.score + old(self)@.caught(ObjectKind::Star) <= u64::MAX,
            old(self)@.lives + old(self)@.caught(ObjectKind::Heart) <= u64::MAX,
        ensures
            final(self)@ == old(self)@.after_catches(),
            final(self)@.score >= old(self)@.score,
            final(self)@.lives >= old(self)@.lives,
            final(self)@.speed.value >= old(self)@.speed.value,
    {
        let ghost before = self@;
        let ghost stars = is_caught(before.player, ObjectKind::Star);
        let ghost hearts = is_caught(before.player, ObjectKind::Heart);
        let ghost free = escapes(before.player);
        let bounds = self.player.aabb();
        let n: usize = self.objects.len();
        let mut kept: Vec<FallingObject> = Vec::new();
        let mut i: usize = 0;
        assert(before.objects.take(0) =~= Seq::<FallingObject>::empty());
        proof {
            before.objects.take(0).lemma_filter_len(stars);
            before.objects.take(0).lemma_filter_len(hearts);
            before.objects.take(0).lemma_filter_len(free);
        }
        while i < n
            invariant
                i <= n,
                n == before.objects.len(),
                bounds == before.player.bounds(),
                stars == is_caught(before.player, ObjectKind::Star),
                hearts == is_caught(before.player, ObjectKind::Heart),
                free == escapes(before.player),
                before.score + before.objects.filter(stars).len() <= u64::MAX,
                before.lives + before.objects.filter(hearts).len() <= u64::MAX,
                self@ == (WorldView {
                    score: before.score + before.objects.take(i as int).filter(stars).len(),
                    lives: before.lives + before.objects.take(i as int).filter(hearts).len(),
                    speed: after_points(
                        before.speed,
                        before.score,
                        before.objects.take(i as int).filter(stars).len(),
                    ),
                    ..before
                }),
                kept@ == before.objects.take(i as int).filter(free),
            decreases n - i,
        {
            let object: FallingObject = self.objects[i];
            proof {
                let seen = before.objects.take(i as int);
                assert(before.objects.take(i + 1) =~= seen.push(object));
                seen.lemma_filter_push(object, stars);
                seen.lemma_filter_push(object, hearts);
                seen.lemma_filter_push(object, free);
                before.objects.lemma_filter_take_len(stars, i + 1);
                before.objects.lemma_filter_take_len(hearts, i + 1);
            }
            if bounds.intersects(&object.aabb()) {
                match object.kind {
                    ObjectKind::Star => {
                        self.scoreboard.add_point();
                        if self.speed.should_increase(self.scoreboard) {
                            self.speed.increase();
                        }
                    },
                    ObjectKind::Heart => {
                        self.lives.add_life();
                    },
                }
            } else {
                kept.push(object);
            }
            i += 1;
        }
        assert(before.objects.take(n as int) =~= before.objects);
        self.objects = kept;
        proof {
            lemma_points_never_slow(before.speed, before.score, before.caught(ObjectKind::Star));
        }
    }

    /// Counts what has come down on a wall as missed: a star costs a life
    /// as long as the player has one, a heart costs a point as long as
    /// there is one, and either is gone.
    pub fn falling_object_wall_collision(&mut self)
        ensures
            final(self)@ == old(self)@.after_misses(),
            final(self)@.score <= old(self)@.score,
            final(self)@.lives <= old(self)@.lives,
    {
        let ghost before = self@;
        let ghost stars = is_missed(before.arena, ObjectKind::Star);
        let ghost hearts = is_missed(before.arena, ObjectKind::Heart);
        let ghost up = stays_up(before.arena);
        let n: usize = self.objects.len();
        let mut kept: Vec<FallingObject> = Vec::new();
        let mut i: usize = 0;
        assert(before.objects.take(0) =~= Seq::<FallingObject>::empty());
        proof {
            before.objects.take(0).lemma_filter_len(stars);
            before.objects.take(0).lemma_filter_len(hearts);
            before.objects.take(0).lemma_filter_len(up);
        }
        while i < n
            invariant
                i <= n,
                n == before.objects.len(),
                stars == is_missed(before.arena, ObjectKind::Star),
                hearts == is_missed(before.arena, ObjectKind::Heart),
                up == stays_up(before.arena),
                self@ == (WorldView {
                    score: after_losses(
                        before.score,
                        before.objects.take(i as int).filter(hearts).len(),
                    ),
                    lives: after_losses(
                        before.lives,
                        before.objects.take(i as int).filter(stars).len(),
                    ),
                    ..before
                }),
                kept@ == before.objects.take(i as int).filter(up),
            decreases n - i,
        {
            let object: FallingObject = self.objects[i];
            proof {
                let seen = before.objects.take(i as int);
                assert(before.objects.take(i + 1) =~= seen.push(object));
                seen.lemma_filter_push(object, stars);
                seen.lemma_filter_push(object, hearts);
                seen.lemma_filter_push(object, up);
            }
            if self.arena.is_grounded(&object) {
                match object.kind {
                    ObjectKind::Star => {
                        if !self.lives.is_dead() {
                            self.lives.remove_life();
                        }
                    },
                    ObjectKind::Heart => {
                        self.scoreboard.remove_point();
                    },
                }
            } else {
                kept.push(object);
            }
            i += 1;
        }
        assert(before.objects.take(n as int) =~= before.objects);
        self.objects = kept;
    }

    /// Reads the direction keys, if the game is under way: each direction
    /// that is held adds a step to the paddle's next move.
    pub fn keyboard_input(&mut self, left: bool, right: bool)
        ensures
            final(self)@ == old(self)@.after_input(left, right),
    {
        if self.state.is_not_running() {
            return;
        }
        self.player.push(left, right);
    }

    /// Holds the paddle back where it has run into a wall: its next move is
    /// one pixel away from that wall, whatever the keys said.
    pub fn handle_player_wall_collision(&mut self)
        ensures
            final(self)@ == old(self)@.after_steering(),
    {
        self.player.hold(&self.arena.right);
        self.player.hold(&self.arena.bottom);
        self.player.hold(&self.arena.left);
        self.player.hold(&self.arena.top);
    }

    /// Moves the paddle by what is due, and leaves nothing due.
    pub fn apply_delta(&mut self)
        ensures
            final(self)@ == old(self)@.after_move(),
    {
        self.player.settle();
    }
}

/// A star that starts to fall at `x`.
pub open spec fn star_at(x: i64) -> FallingObject {
    FallingObject { kind: ObjectKind::Star, x, y: SPAWN_Y }
}

} // verus!
