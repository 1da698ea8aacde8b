//! What stands and moves in the arena: the walls, the player's paddle and
//! the stars and hearts that fall.

use vstd::prelude::*;

use crate::collision::{collide, collision_side, Aabb, Collision};

verus! {

/// Width and height of a star or a heart: 40 pixels.
pub const OBJECT_SIZE: u64 = 4000;

/// Width of the paddle: 115.5 pixels.
pub const PLAYER_WIDTH: u64 = 11550;

/// Height of the paddle: 57 pixels.
pub const PLAYER_HEIGHT: u64 = 5700;

/// Where a fresh paddle stands.
pub const PLAYER_START_X: i64 = 1000;

/// The height at which the paddle stands.
pub const PLAYER_START_Y: i64 = -20000;

/// How far a pressed key moves the paddle in one tick: 7 pixels.
pub const STEP: i64 = 700;

/// How far a wall pushes the paddle back: 1 pixel.
pub const NUDGE: i64 = 100;

/// The height at which everything that falls starts.
pub const SPAWN_Y: i64 = 26000;

/// The leftmost place at which something may start to fall.
pub const SPAWN_X_MIN: i64 = -12000;

/// The end of the band in which things start to fall; nothing starts here.
pub const SPAWN_X_END: i64 = 18000;

/// The value nearest to `v` that a coordinate can hold.
pub open spec fn clamped(v: int) -> i64 {
    if v < i64::MIN {
        i64::MIN
    } else if v > i64::MAX {
        i64::MAX
    } else {
        v as i64
    }
}

/// Computes `clamped`.
pub(crate) fn clamp(v: i128) -> (c: i64)
    ensures
        c == clamped(v as int),
{
    if v < i64::MIN as i128 {
        i64::MIN
    } else if v > i64::MAX as i128 {
        i64::MAX
    } else {
        v as i64
    }
}

/// What falls.
#[derive(Clone, Copy, Debug, PartialEq, Eq, Structural)]
pub enum ObjectKind {
    Star,
    Heart,
}

/// A star or a heart on its way down, by its centre.
#[derive(Clone, Copy, Debug, PartialEq, Eq, Structural)]
pub struct FallingObject {
    pub kind: ObjectKind,
    pub x: i64,
    pub y: i64,
}

impl FallingObject {
    /// The box that the object fills.
    pub open spec fn bounds(self) -> Aabb {
        Aabb { x: self.x, y: self.y, width: OBJECT_SIZE, height: OBJECT_SIZE }
    }

    /// The object one tick later at the given fall speed: lower by the
    /// speed, as far as the coordinate reaches.
    pub open spec fn fallen(self, speed: u64) -> FallingObject {
        FallingObject { kind: self.kind, x: self.x, y: clamped(self.y - speed) }
    }

    /// The box that the object fills.
    pub fn aabb(&self) -> (b: Aabb)
        ensures
            b == self.bounds(),
    {
        Aabb { x: self.x, y: self.y, width: OBJECT_SIZE, height: OBJECT_SIZE }
    }

    /// Lets the object drop for one tick.
    pub fn fall(&mut self, speed: u64)
        ensures
            *final(self) == old(self).fallen(speed),
            final(self).y <= old(self).y,
    {
        self.y = clamp(self.y as i128 - speed as i128);
    }
}

/// The paddle, by its centre, with the sideways move that is still to be
/// made in this tick.
#[derive(Clone, Copy, Debug, PartialEq, Eq, Structural)]
pub struct Player {
    pub x: i64,
    pub y: i64,
    pub delta: i64,
}

/// The move that is due after a wall was met on `side`: a wall met on the
/// left side of the pair pushes one pixel to the left, one met on the right
/// side one pixel to the right, and the paddle meets no wall from above or
/// below, so such a meeting changes nothing.
pub open spec fn nudged(delta: i64, side: Option<Collision>) -> i64 {
    match side {
        Some(Collision::Left) => (-NUDGE) as i64,
        Some(Collision::Right) => NUDGE,
        _ => delta,
    }
}

impl Player {
    /// The box that the paddle fills.
    pub open spec fn bounds(self) -> Aabb {
        Aabb { x: self.x, y: self.y, width: PLAYER_WIDTH, height: PLAYER_HEIGHT }
    }

    /// The paddle after the keys were read: each direction that is held
    /// adds a step to the move that is due, and both together cancel.
    pub open spec fn pushed(self, left: bool, right: bool) -> Player {
        let after_left = if left {
            clamped(self.delta - STEP)
        } else {
            self.delta
        };
        let after_right = if right {
            clamped(after_left + STEP)
        } else {
            after_left
        };
        Player { x: self.x, y: self.y, delta: after_right }
    }

    /// The paddle after it was held against one wall.
    pub open spec fn held_by(self, wall: Aabb) -> Player {
        Player {
            x: self.x,
            y: self.y,
            delta: nudged(self.delta, collision_side(self.bounds(), wall)),
        }
    }

    /// The paddle after it was held against every wall in turn: right,
    /// bottom, left, top.
    pub open spec fn steered(self, arena: Arena) -> Player {
        self.held_by(arena.right).held_by(arena.bottom).held_by(arena.left).held_by(arena.top)
    }

    /// The paddle after the move that was due: moved, with nothing left to
    /// move.
    pub open spec fn settled(self) -> Player {
        Player { x: clamped(self.x + self.delta), y: self.y, delta: 0 }
    }

    /// The box that the paddle fills.
    pub fn aabb(&self) -> (b: Aabb)
        ensures
            b == self.bounds(),
    {
        Aabb { x: self.x, y: self.y, width: PLAYER_WIDTH, height: PLAYER_HEIGHT }
    }

    /// Reads the two directions off the keys.
    pub fn push(&mut self, left: bool, right: bool)
        ensures
            *final(self) == old(self).pushed(left, right),
    {
        if left {
            self.delta = clamp(self.delta as i128 - STEP as i128);
        }
        if right {
            self.delta = clamp(self.delta as i128 + STEP as i128);
        }
    }

    /// Holds the paddle against one wall.
    pub fn hold(&mut self, wall: &Aabb)
        ensures
            *final(self) == old(self).held_by(*wall),
    {
        let bounds = self.aabb();
        match collide(&bounds, wall) {
            Some(Collision::Left) => {
                self.delta = -NUDGE;
            },
            Some(Collision::Right) => {
                self.delta = NUDGE;
            },
            _ => {},
        }
    }

    /// Makes the move that is due.
    pub fn settle(&mut self)
        ensures
            *final(self) == old(self).settled(),
    {
        self.x = clamp(self.x as i128 + self.delta as i128);
        self.delta = 0;
    }
}

/// A fresh paddle at its starting place, at rest.
pub fn spawn_player() -> (player: Player)
    ensures
        player == (Player { x: PLAYER_START_X, y: PLAYER_START_Y, delta: 0 }),
{
    Player { x: PLAYER_START_X, y: PLAYER_START_Y, delta: 0 }
}

/// The four walls around the playing field, one to each side.
#[derive(Clone, Copy, Debug, PartialEq, Eq, Structural)]
pub struct Arena {
    pub right: Aabb,
    pub bottom: Aabb,
    pub left: Aabb,
    pub top: Aabb,
}

/// The arena of the game, laid out for a window of 540 by 600 pixels.
pub open spec fn standard_arena() -> Arena {
    Arena {
        right: Aabb { x: 26000, y: (-27000) as i64, width: 2000, height: 119900 },
        bottom: Aabb { x: 22000, y: (-29000) as i64, width: 70000, height: 2000 },
        left: Aabb { x: (-14000) as i64, y: (-27500) as i64, width: 2000, height: 119900 },
        top: Aabb { x: 20000, y: 29000, width: 70000, height: 2000 },
    }
}

/// Builds the arena of the game.
pub fn build_arena() -> (arena: Arena)
    ensures
        arena == standard_arena(),
{
    Arena {
        right: Aabb { x: 26000, y: -27000, width: 2000, height: 119900 },
        bottom: Aabb { x: 22000, y: -29000, width: 70000, height: 2000 },
        left: Aabb { x: -14000, y: -27500, width: 2000, height: 119900 },
        top: Aabb { x: 20000, y: 29000, width: 70000, height: 2000 },
    }
}

impl Arena {
    /// Whether the object has come down on a wall: some wall meets it on
    /// the bottom side, and on that side before any other.
    pub open spec fn grounds(self, object: FallingObject) -> bool {
        ||| collision_side(self.right, object.bounds()) == Some(Collision::Bottom)
        ||| collision_side(self.bottom, object.bounds()) == Some(Collision::Bottom)
        ||| collision_side(self.left, object.bounds()) == Some(Collision::Bottom)
        ||| collision_side(self.top, object.bounds()) == Some(Collision::Bottom)
    }

    /// Whether the object has come down on a wall.
    pub fn is_grounded(&self, object: &FallingObject) -> (down: bool)
        ensures
            down == self.grounds(*object),
    {
        let bounds = object.aabb();
        lands(&self.right, &bounds) || lands(&self.bottom, &bounds) || lands(&self.left, &bounds)
            || lands(&self.top, &bounds)
    }
}

/// Whether the wall meets the box on the bottom side.
fn lands(wall: &Aabb, object: &Aabb) -> (down: bool)
    ensures
        down == (collision_side(*wall, *object) == Some(Collision::Bottom)),
{
    match collide(wall, object) {
        Some(Collision::Bottom) => true,
        _ => false,
    }
}

} // verus!
