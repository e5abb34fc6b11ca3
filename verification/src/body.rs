//! Per-entity kinematic state.
//!
//! A body is either an `Actor`, which the sweep moves and collision-checks,
//! or a `Solid`, which only contributes its collider to the snapshot and is
//! never displaced. Exactly one of the two kinds applies to a body at any
//! time. Positions are whole grid units; velocity and acceleration are
//! sub-units per second; the remainder carries the sub-unit fraction of
//! motion between ticks.

use vstd::prelude::*;

use crate::collision::{box_in_range, CollisionResult, CollisionResultView, AABB, Box2};
use crate::math::{iabs, v2_in_range, v2_zero, Vec2, Vec2i, HALF_UNIT, POS_LIMIT, UNIT, VEL_LIMIT};

verus! {

/// World position in whole grid units; for actors it is mutated only by the
/// sweep.
#[derive(Clone, Copy, PartialEq, Eq, Structural, Debug)]
pub struct Position(pub Vec2i);

/// Desired velocity for the current tick, in sub-units per second; after the
/// sweep it holds the velocity actually achieved.
#[derive(Clone, Copy, PartialEq, Eq, Structural, Debug)]
pub struct Velocity(pub Vec2i);

/// Force accumulator, in sub-units per second per second; consumed and reset
/// to zero every tick.
#[derive(Clone, Copy, PartialEq, Eq, Structural, Debug)]
pub struct Acceleration(pub Vec2i);

/// Fractional carry-over of sub-unit motion between ticks, in sub-units;
/// each component stays strictly below one unit in magnitude.
#[derive(Clone, Copy, PartialEq, Eq, Structural, Debug)]
pub struct Remainder(pub Vec2i);

/// Body classification; a body is exactly one of the two.
#[derive(Clone, Copy, PartialEq, Eq, Structural, Debug)]
pub enum BodyType {
    /// Moved and collision-checked by the sweep.
    Actor,
    /// Static obstacle; contributes its collider, never displaced.
    Solid,
}

impl View for Position {
    type V = Vec2;

    open spec fn view(&self) -> Vec2 {
        self.0@
    }
}

impl View for Velocity {
    type V = Vec2;

    open spec fn view(&self) -> Vec2 {
        self.0@
    }
}

impl View for Acceleration {
    type V = Vec2;

    open spec fn view(&self) -> Vec2 {
        self.0@
    }
}

impl View for Remainder {
    type V = Vec2;

    open spec fn view(&self) -> Vec2 {
        self.0@
    }
}

impl Default for Position {
    fn default() -> (r: Self)
        ensures
            r@ == v2_zero(),
    {
        Position(Vec2i::zero())
    }
}

impl Default for Velocity {
    fn default() -> (r: Self)
        ensures
            r@ == v2_zero(),
    {
        Velocity(Vec2i::zero())
    }
}

impl Default for Acceleration {
    fn default() -> (r: Self)
        ensures
            r@ == v2_zero(),
    {
        Acceleration(Vec2i::zero())
    }
}

impl Default for Remainder {
    fn default() -> (r: Self)
        ensures
            r@ == v2_zero(),
    {
        Remainder(Vec2i::zero())
    }
}

impl Default for BodyType {
    fn default() -> (r: Self)
        ensures
            r == BodyType::Solid,
    {
        BodyType::Solid
    }
}

/// The kinematic state a body is spawned with.
#[derive(Clone, Copy, PartialEq, Eq, Structural, Debug)]
pub struct BodyBundle {
    pub body_type: BodyType,
    pub velocity: Velocity,
    pub position: Position,
    pub remainder: Remainder,
}

impl Default for BodyBundle {
    fn default() -> (r: Self)
        ensures
            r.body_type == BodyType::Solid,
            r.velocity@ == v2_zero(),
            r.position@ == v2_zero(),
            r.remainder@ == v2_zero(),
    {
        BodyBundle {
            body_type: BodyType::Solid,
            velocity: Velocity(Vec2i::zero()),
            position: Position(Vec2i::zero()),
            remainder: Remainder(Vec2i::zero()),
        }
    }
}

/// Mathematical model of a [`Body`].
pub ghost struct BodyView {
    pub body_type: BodyType,
    pub position: Vec2,
    pub velocity: Vec2,
    pub acceleration: Vec2,
    pub remainder: Vec2,
    pub collider: Box2,
    pub collision: Option<CollisionResultView>,
}

/// One entity of the physics world: kinematic state, collider and the
/// single-tick collision mailbox.
#[derive(Clone, Copy, Debug)]
pub struct Body {
    pub body_type: BodyType,
    pub position: Position,
    pub velocity: Velocity,
    pub acceleration: Acceleration,
    pub remainder: Remainder,
    pub collider: AABB,
    pub collision: Option<CollisionResult>,
}

/// The model of an optional collision mailbox.
pub open spec fn collision_result_view(o: Option<CollisionResult>) -> Option<CollisionResultView> {
    match o {
        Option::Some(c) => Option::Some(c@),
        Option::None => Option::None,
    }
}

impl View for Body {
    type V = BodyView;

    open spec fn view(&self) -> BodyView {
        BodyView {
            body_type: self.body_type,
            position: self.position@,
            velocity: self.velocity@,
            acceleration: self.acceleration@,
            remainder: self.remainder@,
            collider: self.collider@,
            collision: collision_result_view(self.collision),
        }
    }
}

/// The machine-limit envelope a body must sit in when a sweep starts:
/// position within [`POS_LIMIT`] units, velocity within [`VEL_LIMIT`],
/// remainder strictly below one unit per axis, collider coordinates in range.
pub open spec fn body_in_bounds(b: BodyView) -> bool {
    &&& v2_in_range(b.position, POS_LIMIT as int)
    &&& v2_in_range(b.velocity, VEL_LIMIT as int)
    &&& iabs(b.remainder.x) < UNIT as int
    &&& iabs(b.remainder.y) < UNIT as int
    &&& box_in_range(b.collider)
}

/// A remainder too small to round to a whole step on either axis; an idle
/// actor with such a remainder never moves.
pub open spec fn remainder_settled(rem: Vec2) -> bool {
    &&& iabs(rem.x) < HALF_UNIT as int
    &&& iabs(rem.y) < HALF_UNIT as int
}

} // verus!
