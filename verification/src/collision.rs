//! Overlap of axis-aligned boxes, and the side on which two boxes meet.
//!
//! A box is stored by its centre and its full extent. Its edges lie half an
//! extent away from the centre, which need not be a whole number, so the
//! edges are always handled doubled: `left2` is twice the left edge.

use vstd::prelude::*;

verus! {

/// The side on which the first box of a pair has run into the second.
#[derive(Clone, Copy, Debug, PartialEq, Eq, Structural)]
pub enum Collision {
    Left,
    Right,
    Top,
    Bottom,
}

/// An axis-aligned box: centre and full extent, in hundredths of a pixel.
#[derive(Clone, Copy, Debug, PartialEq, Eq, Structural)]
pub struct Aabb {
    pub x: i64,
    pub y: i64,
    pub width: u64,
    pub height: u64,
}

/// How the interval `a` meets the interval `b` along one axis.
#[derive(Clone, Copy, Debug, PartialEq, Eq, Structural)]
pub enum AxisHit {
    /// `a` reaches into `b` from below: only its upper end lies inside `b`.
    /// The field is how far it reaches in.
    FromBelow(u128),
    /// `a` reaches into `b` from above: only its lower end lies inside `b`.
    FromAbove(u128),
    /// Neither: the intervals are apart, or one covers the other's end on
    /// both sides, or two ends coincide.
    Unresolved,
}

impl Aabb {
    /// Twice the coordinate of the left edge.
    pub open spec fn left2(self) -> int {
        2 * self.x - self.width
    }

    /// Twice the coordinate of the right edge.
    pub open spec fn right2(self) -> int {
        2 * self.x + self.width
    }

    /// Twice the coordinate of the lower edge.
    pub open spec fn bottom2(self) -> int {
        2 * self.y - self.height
    }

    /// Twice the coordinate of the upper edge.
    pub open spec fn top2(self) -> int {
        2 * self.y + self.height
    }

    /// The two boxes share interior points. Boxes that only touch along an
    /// edge do not overlap, and a box without area overlaps nothing that it
    /// merely borders.
    pub open spec fn overlaps(self, other: Aabb) -> bool {
        &&& self.left2() < other.right2()
        &&& self.right2() > other.left2()
        &&& self.bottom2() < other.top2()
        &&& self.top2() > other.bottom2()
    }

    /// Whether the two boxes overlap.
    pub fn intersects(&self, other: &Aabb) -> (hit: bool)
        ensures
            hit == self.overlaps(*other),
    {
        let a_left: i128 = 2 * (self.x as i128) - (self.width as i128);
        let a_right: i128 = 2 * (self.x as i128) + (self.width as i128);
        let a_bottom: i128 = 2 * (self.y as i128) - (self.height as i128);
        let a_top: i128 = 2 * (self.y as i128) + (self.height as i128);
        let b_left: i128 = 2 * (other.x as i128) - (other.width as i128);
        let b_right: i128 = 2 * (other.x as i128) + (other.width as i128);
        let b_bottom: i128 = 2 * (other.y as i128) - (other.height as i128);
        let b_top: i128 = 2 * (other.y as i128) + (other.height as i128);
        a_left < b_right && a_right > b_left && a_bottom < b_top && a_top > b_bottom
    }
}

/// The meeting of two intervals along one axis, over their doubled ends.
/// The depth is doubled as well, which leaves comparisons of depths as they
/// are.
pub open spec fn axis_hit(a_min: int, a_max: int, b_min: int, b_max: int) -> AxisHit {
    if a_min < b_min && b_min < a_max && a_max < b_max {
        AxisHit::FromBelow((a_max - b_min) as u128)
    } else if b_min < a_min && a_min < b_max && b_max < a_max {
        AxisHit::FromAbove((b_max - a_min) as u128)
    } else {
        AxisHit::Unresolved
    }
}

/// The side that a hit along the horizontal axis stands for.
pub open spec fn horizontal_side(hit: AxisHit) -> Option<(Collision, u128)> {
    match hit {
        AxisHit::FromBelow(depth) => Some((Collision::Left, depth)),
        AxisHit::FromAbove(depth) => Some((Collision::Right, depth)),
        AxisHit::Unresolved => None,
    }
}

/// The side that a hit along the vertical axis stands for.
pub open spec fn vertical_side(hit: AxisHit) -> Option<(Collision, u128)> {
    match hit {
        AxisHit::FromBelow(depth) => Some((Collision::Bottom, depth)),
        AxisHit::FromAbove(depth) => Some((Collision::Top, depth)),
        AxisHit::Unresolved => None,
    }
}

/// The side on which `a` has run into `b`.
///
/// Boxes that do not overlap collide on no side. Of boxes that overlap, each
/// axis resolves to at most one side. Where both do, the side of the
/// shallower penetration wins, and the horizontal one on a tie. Where
/// neither does, as when one box lies across the other, there is no side
/// although the boxes overlap.
pub open spec fn collision_side(a: Aabb, b: Aabb) -> Option<Collision> {
    if !a.overlaps(b) {
        None
    } else {
        let across = horizontal_side(axis_hit(a.left2(), a.right2(), b.left2(), b.right2()));
        let upright = vertical_side(axis_hit(a.bottom2(), a.top2(), b.bottom2(), b.top2()));
        match (across, upright) {
            (Some((x_side, x_depth)), Some((y_side, y_depth))) => if y_depth < x_depth {
                Some(y_side)
            } else {
                Some(x_side)
            },
            (Some((x_side, _)), None) => Some(x_side),
            (None, Some((y_side, _))) => Some(y_side),
            (None, None) => None,
        }
    }
}

/// Computes `axis_hit` on machine integers.
fn meet(a_min: i128, a_max: i128, b_min: i128, b_max: i128) -> (hit: AxisHit)
    requires
        -0x2_0000_0000_0000_0000 <= a_min <= 0x2_0000_0000_0000_0000,
        -0x2_0000_0000_0000_0000 <= a_max <= 0x2_0000_0000_0000_0000,
        -0x2_0000_0000_0000_0000 <= b_min <= 0x2_0000_0000_0000_0000,
        -0x2_0000_0000_0000_0000 <= b_max <= 0x2_0000_0000_0000_0000,
    ensures
        hit == axis_hit(a_min as int, a_max as int, b_min as int, b_max as int),
{
    if a_min < b_min && b_min < a_max && a_max < b_max {
        AxisHit::FromBelow((a_max - b_min) as u128)
    } else if b_min < a_min && a_min < b_max && b_max < a_max {
        AxisHit::FromAbove((b_max - a_min) as u128)
    } else {
        AxisHit::Unresolved
    }
}

/// The side on which `a` has run into `b`, if the boxes overlap and a side
/// can be told.
pub fn collide(a: &Aabb, b: &Aabb) -> (side: Option<Collision>)
    ensures
        side == collision_side(*a, *b),
        side.is_some() ==> a.overlaps(*b),
{
    if !a.intersects(b) {
        return None;
    }
    let a_left: i128 = 2 * (a.x as i128) - (a.width as i128);
    let a_right: i128 = 2 * (a.x as i128) + (a.width as i128);
    let a_bottom: i128 = 2 * (a.y as i128) - (a.height as i128);
    let a_top: i128 = 2 * (a.y as i128) + (a.height as i128);
    let b_left: i128 = 2 * (b.x as i128) - (b.width as i128);
    let b_right: i128 = 2 * (b.x as i128) + (b.width as i128);
    let b_bottom: i128 = 2 * (b.y as i128) - (b.height as i128);
    let b_top: i128 = 2 * (b.y as i128) + (b.height as i128);
    let across = meet(a_left, a_right, b_left, b_right);
    let upright = meet(a_bottom, a_top, b_bottom, b_top);
    match across {
        AxisHit::Unresolved => match upright {
            AxisHit::FromBelow(_) => Some(Collision::Bottom),
            AxisHit::FromAbove(_) => Some(Collision::Top),
            AxisHit::Unresolved => None,
        },
        AxisHit::FromBelow(x_depth) => match upright {
            AxisHit::FromBelow(y_depth) => if y_depth < x_depth {
                Some(Collision::Bottom)
            } else {
                Some(Collision::Left)
            },
            AxisHit::FromAbove(y_depth) => if y_depth < x_depth {
                Some(Collision::Top)
            } else {
                Some(Collision::Left)
            },
            AxisHit::Unresolved => Some(Collision::Left),
        },
        AxisHit::FromAbove(x_depth) => match upright {
            AxisHit::FromBelow(y_depth) => if y_depth < x_depth {
                Some(Collision::Bottom)
            } else {
                Some(Collision::Right)
            },
            AxisHit::FromAbove(y_depth) => if y_depth < x_depth {
                Some(Collision::Top)
            } else {
                Some(Collision::Right)
            },
            AxisHit::Unresolved => Some(Collision::Right),
        },
    }
}

} // verus!
