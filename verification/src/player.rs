//! Player systems around the physics core: key-state decisions, gravity,
//! clamped integration of acceleration into velocity, and the grounding
//! check that drains the collision mailbox.
//!
//! These run in the staged pipeline: [`gravity`] and [`move_player`] in
//! `PreStep`, [`integrate_movement`] at the start of `Step` (before the
//! world sweep), and [`collision_check`] in `PostStep`.

use vstd::prelude::*;

use crate::body::{Acceleration, Velocity};
use crate::collision::CollisionResult;
use crate::math::{
    div_toward_zero, div_trunc, iabs, lemma_div_toward_zero_le, lemma_mul_range, v2_add, v2_zero,
    Vec2, Vec2i, ACCEL_LIMIT, DT_LIMIT, UNIT, VEL_LIMIT,
};

verus! {

/// Health points of the player entity.
#[derive(Clone, Copy, PartialEq, Eq, Structural, Debug)]
pub struct Health(pub u32);

/// Walking parameters: acceleration and speed cap, in sub-units per second
/// (squared, for the acceleration).
#[derive(Clone, Copy, PartialEq, Eq, Structural, Debug)]
pub struct PlayerWalkParams {
    pub walk_accel: i64,
    pub max_walk_speed: i64,
}

/// Jumping parameters and state. Times are sub-seconds; `jump_timer` counts
/// the remaining boost window, finished once it reaches zero.
/// `max_fall_speed` is the (negative) floor on downward velocity.
#[derive(Clone, Copy, PartialEq, Eq, Structural, Debug)]
pub struct PlayerJumpParams {
    pub gravity: Vec2i,
    pub jump_acceleration: i64,
    pub max_jump_duration: i64,
    pub max_fall_speed: i64,
    pub jump_timer: i64,
    pub grounded: bool,
    pub is_jumping: bool,
}

/// Pressed-state of the player's bound keys for one tick, as the input edge
/// reports it.
#[derive(Clone, Copy, PartialEq, Eq, Structural, Debug)]
pub struct PlayerControls {
    pub left: bool,
    pub right: bool,
    pub jump: bool,
    pub jump_just_pressed: bool,
    pub jump_just_released: bool,
}

/// The sign a velocity component reports when deciding whether added
/// velocity points the same way: zero counts as positive.
pub open spec fn sign_or_one(a: int) -> int {
    if a >= 0 {
        1
    } else {
        -1
    }
}

/// Clamp to a closed interval (meaningful for `lo <= hi`).
pub open spec fn clamp_int(a: int, lo: int, hi: int) -> int {
    if a < lo {
        lo
    } else if a > hi {
        hi
    } else {
        a
    }
}

/// The larger of two values.
pub open spec fn max_int(a: int, b: int) -> int {
    if a >= b {
        a
    } else {
        b
    }
}

/// What integration does to the velocity: acceleration scaled by the tick
/// becomes added velocity; a horizontal reversal replaces the old horizontal
/// velocity instead of adding to it; then the horizontal speed is clamped to
/// the walk cap and the fall speed floored.
pub open spec fn integrate_spec(
    vel: Vec2,
    acc: Vec2,
    dt: int,
    max_walk_speed: int,
    max_fall_speed: int,
) -> Vec2 {
    let added = Vec2 {
        x: div_toward_zero(acc.x * dt, UNIT as int),
        y: div_toward_zero(acc.y * dt, UNIT as int),
    };
    let temp = if sign_or_one(vel.x) == sign_or_one(added.x) || added.x == 0 {
        v2_add(added, vel)
    } else {
        Vec2 { x: added.x, y: added.y + vel.y }
    };
    Vec2 {
        x: clamp_int(temp.x, -max_walk_speed, max_walk_speed),
        y: max_int(temp.y, max_fall_speed),
    }
}

/// Integrates accumulated acceleration into velocity for one tick, clamping
/// to the player's speed caps, and resets the accumulator.
pub fn integrate_movement(
    velocity: &mut Velocity,
    acceleration: &mut Acceleration,
    walk: &PlayerWalkParams,
    jump: &PlayerJumpParams,
    dt: i64,
)
    requires
        1 <= dt <= DT_LIMIT,
        iabs(old(velocity)@.x) <= VEL_LIMIT as int,
        iabs(old(velocity)@.y) <= VEL_LIMIT as int,
        iabs(old(acceleration)@.x) <= ACCEL_LIMIT as int,
        iabs(old(acceleration)@.y) <= ACCEL_LIMIT as int,
        0 <= walk.max_walk_speed,
    ensures
        final(velocity)@ == integrate_spec(
            old(velocity)@,
            old(acceleration)@,
            dt as int,
            walk.max_walk_speed as int,
            jump.max_fall_speed as int,
        ),
        final(acceleration)@ == v2_zero(),
{
    proof {
        lemma_mul_range(old(acceleration)@.x, dt as int, ACCEL_LIMIT as int, DT_LIMIT as int);
        lemma_mul_range(old(acceleration)@.y, dt as int, ACCEL_LIMIT as int, DT_LIMIT as int);
        lemma_div_toward_zero_le(
            old(acceleration)@.x * dt as int,
            UNIT as int,
            ACCEL_LIMIT as int * DT_LIMIT as int,
        );
        lemma_div_toward_zero_le(
            old(acceleration)@.y * dt as int,
            UNIT as int,
            ACCEL_LIMIT as int * DT_LIMIT as int,
        );
    }
    let added_x = div_trunc(acceleration.0.x * dt, UNIT);
    let added_y = div_trunc(acceleration.0.y * dt, UNIT);
    let vel_sign: i64 = if velocity.0.x >= 0 {
        1
    } else {
        -1
    };
    let added_sign: i64 = if added_x >= 0 {
        1
    } else {
        -1
    };
    let temp_x: i64 = if vel_sign == added_sign || added_x == 0 {
        added_x + velocity.0.x
    } else {
        added_x
    };
    let temp_y: i64 = added_y + velocity.0.y;
    let clamped_x: i64 = if temp_x < -walk.max_walk_speed {
        -walk.max_walk_speed
    } else if temp_x > walk.max_walk_speed {
        walk.max_walk_speed
    } else {
        temp_x
    };
    let floored_y: i64 = if temp_y >= jump.max_fall_speed {
        temp_y
    } else {
        jump.max_fall_speed
    };
    velocity.0 = Vec2i { x: clamped_x, y: floored_y };
    acceleration.0 = Vec2i::zero();
}

/// Adds the configured gravity into the force accumulator; runs every
/// `PreStep`.
pub fn gravity(acceleration: &mut Acceleration, jump: &PlayerJumpParams)
    requires
        iabs(old(acceleration)@.x) + iabs(jump.gravity@.x) <= ACCEL_LIMIT as int,
        iabs(old(acceleration)@.y) + iabs(jump.gravity@.y) <= ACCEL_LIMIT as int,
    ensures
        final(acceleration)@ == v2_add(old(acceleration)@, jump.gravity@),
{
    acceleration.0 = Vec2i {
        x: acceleration.0.x + jump.gravity.x,
        y: acceleration.0.y + jump.gravity.y,
    };
}

/// Consumes one tick's collision mailbox for the grounding check: a contact
/// on the Y axis grounds an airborne player. The caller removes the mailbox
/// from the body in the same tick (see
/// [`crate::world::PhysicsWorld::take_collision_result`]).
pub fn collision_check(jump: &mut PlayerJumpParams, result: &CollisionResult)
    ensures
        final(jump).grounded == (old(jump).grounded || result.y_collision_body is Some),
        final(jump).is_jumping == old(jump).is_jumping,
        final(jump).jump_timer == old(jump).jump_timer,
        final(jump).gravity == old(jump).gravity,
        final(jump).jump_acceleration == old(jump).jump_acceleration,
        final(jump).max_jump_duration == old(jump).max_jump_duration,
        final(jump).max_fall_speed == old(jump).max_fall_speed,
{
    if !jump.grounded && result.y_collision_body.is_some() {
        jump.grounded = true;
    }
}

/// Turns one tick of key state into acceleration writes and jump-state
/// updates: opposing or absent directions zero the horizontal velocity, a
/// held direction accelerates, a jump press from the ground opens the boost
/// window, and holding jump adds boost until the window runs out.
pub fn move_player(
    controls: &PlayerControls,
    walk: &PlayerWalkParams,
    jump: &mut PlayerJumpParams,
    velocity: &mut Velocity,
    acceleration: &mut Acceleration,
    dt: i64,
)
    requires
        1 <= dt <= DT_LIMIT,
        iabs(old(acceleration)@.x) + iabs(walk.walk_accel as int) <= ACCEL_LIMIT as int,
        iabs(old(acceleration)@.y) + iabs(old(jump).jump_acceleration as int) <= ACCEL_LIMIT as int,
        -DT_LIMIT <= old(jump).jump_timer <= DT_LIMIT,
        0 <= old(jump).max_jump_duration <= DT_LIMIT,
    ensures
        ({
            let neutral = (!controls.left && !controls.right) || (controls.left
                && controls.right);
            let grounded0 = old(jump).grounded && old(velocity)@.y == 0;
            let starts = grounded0 && controls.jump_just_pressed;
            let is_jumping1 = starts || old(jump).is_jumping;
            let timer1: int = if starts {
                old(jump).max_jump_duration as int
            } else {
                old(jump).jump_timer as int
            };
            let boosting = controls.jump && is_jumping1 && timer1 > 0;
            let expired = controls.jump && is_jumping1 && timer1 <= 0;
            &&& final(velocity)@ == Vec2 {
                x: if neutral {
                    0
                } else {
                    old(velocity)@.x
                },
                y: old(velocity)@.y,
            }
            &&& final(acceleration)@ == Vec2 {
                x: if neutral {
                    old(acceleration)@.x
                } else if controls.left {
                    old(acceleration)@.x - walk.walk_accel
                } else {
                    old(acceleration)@.x + walk.walk_accel
                },
                y: if boosting {
                    old(acceleration)@.y + old(jump).jump_acceleration
                } else {
                    old(acceleration)@.y
                },
            }
            &&& final(jump).grounded == (grounded0 && !starts)
            &&& final(jump).is_jumping == (if controls.jump_just_released {
                false
            } else if expired {
                false
            } else {
                is_jumping1
            })
            &&& final(jump).jump_timer == (if boosting {
                timer1 - dt
            } else {
                timer1
            })
            &&& final(jump).gravity == old(jump).gravity
            &&& final(jump).jump_acceleration == old(jump).jump_acceleration
            &&& final(jump).max_jump_duration == old(jump).max_jump_duration
            &&& final(jump).max_fall_speed == old(jump).max_fall_speed
        }),
        -DT_LIMIT <= final(jump).jump_timer <= DT_LIMIT,
{
    if velocity.0.y != 0 {
        jump.grounded = false;
    }
    if (!controls.left && !controls.right) || (controls.left && controls.right) {
        velocity.0.x = 0;
    } else if controls.left {
        acceleration.0.x = acceleration.0.x - walk.walk_accel;
    } else {
        acceleration.0.x = acceleration.0.x + walk.walk_accel;
    }

    if jump.grounded && controls.jump_just_pressed {
        jump.is_jumping = true;
        jump.grounded = false;
        jump.jump_timer = jump.max_jump_duration;
    }

    if controls.jump && jump.is_jumping {
        if jump.jump_timer > 0 {
            acceleration.0.y = acceleration.0.y + jump.jump_acceleration;
            jump.jump_timer = jump.jump_timer - dt;
        } else {
            jump.is_jumping = false;
        }
    }

    if controls.jump_just_released {
        jump.is_jumping = false;
    }
}

} // verus!
