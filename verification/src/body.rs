//! The data the simulation works on: the body, the playable rectangle and
//! the per-frame inputs.
//!
//! Coordinates are window-relative with the origin at the window's center
//! (the centered-origin convention), in stored fixed-point units.

use vstd::prelude::*;
use crate::fixed::in_coord_range;
use crate::fixed::COORD_LIMIT;
use crate::fixed::SCALE;

verus! {

/// Radius of the circular body, fixed at 32 world units.
pub const CIRCLE_RADIUS: i64 = 32 * SCALE;

/// A point in world coordinates (stored fixed-point units).
#[derive(Clone, Copy, Debug, PartialEq, Eq, Structural)]
pub struct Position {
    pub x: i64,
    pub y: i64,
}

impl Position {
    /// Both coordinates lie in the representable interval.
    pub open spec fn wf(self) -> bool {
        in_coord_range(self.x as int) && in_coord_range(self.y as int)
    }
}

/// The body's rate of change of position, one signed scalar per axis
/// (stored fixed-point units; world units of position change per second
/// after the speed multiplier is applied).
#[derive(Clone, Copy, Debug, PartialEq, Eq, Structural)]
pub struct Velocity {
    pub horizontal: i64,
    pub vertical: i64,
}

impl Velocity {
    /// Both components lie in the representable interval.
    pub open spec fn wf(self) -> bool {
        in_coord_range(self.horizontal as int) && in_coord_range(self.vertical as int)
    }
}

/// The single simulated entity: a circle of radius `CIRCLE_RADIUS` with a
/// position and a velocity.
#[derive(Clone, Copy, Debug, PartialEq, Eq, Structural)]
pub struct Body {
    pub position: Position,
    pub velocity: Velocity,
}

impl Body {
    /// Every stored scalar of the body is representable.
    pub open spec fn wf(self) -> bool {
        self.position.wf() && self.velocity.wf()
    }

    /// A body at rest at the given point, as spawned at startup.
    pub fn new(x: i64, y: i64) -> (b: Body)
        requires
            in_coord_range(x as int),
            in_coord_range(y as int),
        ensures
            b.position.x == x,
            b.position.y == y,
            b.velocity.horizontal == 0,
            b.velocity.vertical == 0,
            b.wf(),
    {
        Body {
            position: Position { x, y },
            velocity: Velocity { horizontal: 0, vertical: 0 },
        }
    }
}

/// The rectangle the body's center must stay in: the window, inset by the
/// body's radius on every side. Recomputed from the window each frame; the
/// physics step only reads it.
#[derive(Clone, Copy, Debug, PartialEq, Eq, Structural)]
pub struct Bounds {
    pub x_min: i64,
    pub x_max: i64,
    pub y_min: i64,
    pub y_max: i64,
}

impl Bounds {
    /// A non-empty rectangle with representable corners.
    pub open spec fn wf(self) -> bool {
        &&& in_coord_range(self.x_min as int)
        &&& in_coord_range(self.x_max as int)
        &&& in_coord_range(self.y_min as int)
        &&& in_coord_range(self.y_max as int)
        &&& self.x_min <= self.x_max
        &&& self.y_min <= self.y_max
    }

    /// The point lies inside the rectangle (each axis independently).
    pub open spec fn contains(self, p: Position) -> bool {
        &&& self.x_min <= p.x <= self.x_max
        &&& self.y_min <= p.y <= self.y_max
    }

    /// The playable rectangle for a window of the given stored size, under
    /// the centered-origin convention: the window spans
    /// `[-width / 2, width / 2]` and the body's center must keep
    /// `CIRCLE_RADIUS` away from every edge.
    pub fn from_window(width: i64, height: i64) -> (b: Bounds)
        requires
            2 * CIRCLE_RADIUS <= width <= 2 * COORD_LIMIT,
            2 * CIRCLE_RADIUS <= height <= 2 * COORD_LIMIT,
        ensures
            b.x_min == CIRCLE_RADIUS - width / 2,
            b.x_max == width / 2 - CIRCLE_RADIUS,
            b.y_min == CIRCLE_RADIUS - height / 2,
            b.y_max == height / 2 - CIRCLE_RADIUS,
            b.wf(),
    {
        let half_w = width / 2;
        let half_h = height / 2;
        Bounds {
            x_min: CIRCLE_RADIUS - half_w,
            x_max: half_w - CIRCLE_RADIUS,
            y_min: CIRCLE_RADIUS - half_h,
            y_max: half_h - CIRCLE_RADIUS,
        }
    }
}

/// The wall policies: stop dead at a wall, or rebound elastically with the
/// damping factor 4/5. A configuration picks exactly one.
#[derive(Clone, Copy, Debug, PartialEq, Eq, Structural)]
pub enum WallPolicy {
    /// Zero the velocity on the axis whose wall was hit.
    Stop,
    /// Flip the velocity on that axis and keep 4/5 of its magnitude.
    Rebound,
}

/// The ephemeral inputs of one frame: the elapsed time in ticks and, on a
/// pointer-press edge, the click's world position.
#[derive(Clone, Copy, Debug, PartialEq, Eq, Structural)]
pub struct FrameContext {
    pub dt: i64,
    pub click: Option<Position>,
}

impl FrameContext {
    /// Time moves forward and any click point is representable.
    pub open spec fn wf(self) -> bool {
        &&& self.dt >= 0
        &&& match self.click {
            Some(p) => p.wf(),
            None => true,
        }
    }
}

} // verus!
