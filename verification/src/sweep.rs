//! The per-axis collision sweep.
//!
//! A sweep first folds the requested displacement into the axis remainder,
//! rounds the remainder to a whole number of unit steps (ties away from
//! zero) and subtracts the rounded amount immediately — a sweep stopped by a
//! collision forfeits the unconsumed budget for the tick. It then commits
//! the steps one unit at a time, testing the actor's collider at each
//! candidate position against every solid in the snapshot, and stops at the
//! first solid that would overlap. Stepping one unit at a time keeps the
//! actor from tunnelling through any solid at least one unit thick.

use vstd::prelude::*;

use crate::body::{Position, Remainder};
use crate::collision::{
    box_in_range, check_for_collision, clear_of_solids, contact_view,
    first_collision, lemma_first_collision_none, pairs_in_range, pairs_view, Box2, Collision,
    ContactView, AABB,
};
use crate::math::{
    iabs, lemma_round_to_units_bound, lemma_round_to_units_props, round_to_units, round_units,
    v2_in_range, Vec2, Vec2i, HALF_UNIT, MOVE_LIMIT, POS_LIMIT, UNIT,
};

verus! {

/// The two sweep axes; the world pass always resolves `X` before `Y`.
#[derive(Clone, Copy, PartialEq, Eq, Structural, Debug)]
pub enum Axis {
    X,
    Y,
}

/// The other axis.
pub open spec fn other_axis(a: Axis) -> Axis {
    match a {
        Axis::X => Axis::Y,
        Axis::Y => Axis::X,
    }
}

/// The component of `v` on axis `a`.
pub open spec fn axis_get(v: Vec2, a: Axis) -> int {
    match a {
        Axis::X => v.x,
        Axis::Y => v.y,
    }
}

/// `v` with its component on axis `a` replaced by `val`.
pub open spec fn axis_set(v: Vec2, a: Axis, val: int) -> Vec2 {
    match a {
        Axis::X => Vec2 { x: val, y: v.y },
        Axis::Y => Vec2 { x: v.x, y: val },
    }
}

/// `p` moved one signed unit along axis `a`.
pub open spec fn axis_step(p: Vec2, a: Axis, sign: int) -> Vec2 {
    axis_set(p, a, axis_get(p, a) + sign)
}

/// Walks up to `n` unit steps of direction `sign` along `a`, committing each
/// step only if the collider at the candidate position is clear of every
/// solid; stops at (and before) the first blocked step, returning the first
/// blocking solid in snapshot order.
pub open spec fn sweep_from(
    pos: Vec2,
    a: Axis,
    sign: int,
    n: nat,
    collider: Box2,
    solids: Seq<(Vec2, Box2)>,
) -> (Vec2, Option<ContactView>)
    decreases n,
{
    if n == 0 {
        (pos, Option::None)
    } else {
        let next = axis_step(pos, a, sign);
        if first_collision(collider, next, solids) is Some {
            (pos, first_collision(collider, next, solids))
        } else {
            sweep_from(next, a, sign, (n - 1) as nat, collider, solids)
        }
    }
}

/// What one axis sweep leaves behind.
pub ghost struct AxisSweepOutcome {
    pub position: Vec2,
    pub remainder: Vec2,
    pub hit: Option<ContactView>,
}

/// The whole axis sweep: displacement into the remainder, rounding with
/// immediate subtraction, then the unit-step walk.
pub open spec fn axis_sweep(
    amount: int,
    pos: Vec2,
    rem: Vec2,
    a: Axis,
    collider: Box2,
    solids: Seq<(Vec2, Box2)>,
) -> AxisSweepOutcome {
    let r = axis_get(rem, a) + amount;
    let m = round_to_units(r);
    if m == 0 {
        AxisSweepOutcome { position: pos, remainder: axis_set(rem, a, r), hit: Option::None }
    } else {
        let stepped = sweep_from(
            pos,
            a,
            if m > 0 {
                1int
            } else {
                -1int
            },
            iabs(m) as nat,
            collider,
            solids,
        );
        AxisSweepOutcome {
            position: stepped.0,
            remainder: axis_set(rem, a, r - m * (UNIT as int)),
            hit: stepped.1,
        }
    }
}

/// How far the unit-step walk can travel: the other axis is untouched, the
/// swept axis moves at most `n` units in direction `sign`, and an unblocked
/// walk travels the full distance.
pub proof fn lemma_sweep_from_travel(
    pos: Vec2,
    a: Axis,
    sign: int,
    n: nat,
    collider: Box2,
    solids: Seq<(Vec2, Box2)>,
)
    requires
        sign == 1 || sign == -1,
    ensures
        axis_get(sweep_from(pos, a, sign, n, collider, solids).0, other_axis(a)) == axis_get(
            pos,
            other_axis(a),
        ),
        iabs(axis_get(sweep_from(pos, a, sign, n, collider, solids).0, a) - axis_get(pos, a))
            <= n,
        sweep_from(pos, a, sign, n, collider, solids).1 is None ==> axis_get(
            sweep_from(pos, a, sign, n, collider, solids).0,
            a,
        ) == axis_get(pos, a) + n * sign,
    decreases n,
{
    if n > 0 {
        let next = axis_step(pos, a, sign);
        if first_collision(collider, next, solids) is Some {
        } else {
            lemma_sweep_from_travel(next, a, sign, (n - 1) as nat, collider, solids);
            assert(((n - 1) as int) * sign + sign == n * sign) by (nonlinear_arith);
        }
    }
}

/// Non-penetration, one walk at a time: a walk that starts clear of every
/// solid ends clear of every solid, because it commits only checked steps.
pub proof fn lemma_sweep_from_clear(
    pos: Vec2,
    a: Axis,
    sign: int,
    n: nat,
    collider: Box2,
    solids: Seq<(Vec2, Box2)>,
)
    requires
        clear_of_solids(collider, pos, solids),
    ensures
        clear_of_solids(collider, sweep_from(pos, a, sign, n, collider, solids).0, solids),
    decreases n,
{
    if n > 0 {
        let next = axis_step(pos, a, sign);
        if first_collision(collider, next, solids) is Some {
        } else {
            lemma_first_collision_none(collider, next, solids);
            lemma_sweep_from_clear(next, a, sign, (n - 1) as nat, collider, solids);
        }
    }
}

/// The axis sweep never moves the other axis, keeps the other axis of the
/// remainder, leaves at most half a unit of remainder on the swept axis, and
/// travels at most `|amount| / UNIT + 2` units.
pub proof fn lemma_axis_sweep_props(
    amount: int,
    pos: Vec2,
    rem: Vec2,
    a: Axis,
    collider: Box2,
    solids: Seq<(Vec2, Box2)>,
)
    requires
        iabs(axis_get(rem, a)) < UNIT as int,
    ensures
        ({
            let o = axis_sweep(amount, pos, rem, a, collider, solids);
            &&& axis_get(o.position, other_axis(a)) == axis_get(pos, other_axis(a))
            &&& axis_get(o.remainder, other_axis(a)) == axis_get(rem, other_axis(a))
            &&& iabs(axis_get(o.remainder, a)) <= HALF_UNIT as int
            &&& iabs(axis_get(o.position, a) - axis_get(pos, a)) <= iabs(amount) / (UNIT as int)
                + 2
            &&& clear_of_solids(collider, pos, solids) ==> clear_of_solids(
                collider,
                o.position,
                solids,
            )
        }),
{
    let r = axis_get(rem, a) + amount;
    let m = round_to_units(r);
    lemma_round_to_units_props(r);
    lemma_round_to_units_bound(r);
    assert(iabs(r) <= iabs(amount) + UNIT);
    vstd::arithmetic::div_mod::lemma_div_is_ordered(iabs(r), iabs(amount) + UNIT, UNIT as int);
    vstd::arithmetic::div_mod::lemma_div_plus_one(iabs(amount), UNIT as int);
    if m != 0 {
        let sign = if m > 0 {
            1int
        } else {
            -1int
        };
        lemma_sweep_from_travel(pos, a, sign, iabs(m) as nat, collider, solids);
        lemma_sweep_from_clear_conditional(pos, a, sign, iabs(m) as nat, collider, solids);
    }
}

proof fn lemma_sweep_from_clear_conditional(
    pos: Vec2,
    a: Axis,
    sign: int,
    n: nat,
    collider: Box2,
    solids: Seq<(Vec2, Box2)>,
)
    ensures
        clear_of_solids(collider, pos, solids) ==> clear_of_solids(
            collider,
            sweep_from(pos, a, sign, n, collider, solids).0,
            solids,
        ),
{
    if clear_of_solids(collider, pos, solids) {
        lemma_sweep_from_clear(pos, a, sign, n, collider, solids);
    }
}

/// Core stepping routine shared by [`move_x`] and [`move_y`].
#[verifier::loop_isolation(false)]
fn move_on_axis(
    axis: Axis,
    move_amount: i64,
    position: &mut Position,
    remainder: &mut Remainder,
    collider: &AABB,
    solid_colliders: &Vec<(Vec2i, AABB)>,
) -> (hit: Option<Collision>)
    requires
        iabs(move_amount as int) <= MOVE_LIMIT as int,
        v2_in_range(old(position)@, 3 * POS_LIMIT as int),
        iabs(old(remainder)@.x) < UNIT as int,
        iabs(old(remainder)@.y) < UNIT as int,
        box_in_range(collider@),
        pairs_in_range(pairs_view(solid_colliders@)),
    ensures
        ({
            let o = axis_sweep(
                move_amount as int,
                old(position)@,
                old(remainder)@,
                axis,
                collider@,
                pairs_view(solid_colliders@),
            );
            &&& final(position)@ == o.position
            &&& final(remainder)@ == o.remainder
            &&& contact_view(hit) == o.hit
        }),
{
    let ghost solids = pairs_view(solid_colliders@);
    let ghost pos0 = position@;
    let ghost rem0 = remainder@;
    let rem_axis: i64 = match axis {
        Axis::X => remainder.0.x,
        Axis::Y => remainder.0.y,
    };
    let r: i64 = rem_axis + move_amount;
    let mut movement: i64 = round_units(r);
    proof {
        lemma_round_to_units_props(r as int);
        lemma_round_to_units_bound(r as int);
    }
    let ghost m0 = movement as int;

    if movement != 0 {
        let new_rem: i64 = r - movement * UNIT;
        match axis {
            Axis::X => {
                remainder.0.x = new_rem;
            },
            Axis::Y => {
                remainder.0.y = new_rem;
            },
        }
        proof {
            assert(remainder@ == axis_set(rem0, axis, r as int - m0 * (UNIT as int)));
        }
        let sign: i64 = if movement > 0 {
            1
        } else {
            -1
        };
        let ghost n0 = iabs(m0) as nat;
        proof {
            assert(iabs(m0) <= (MOVE_LIMIT + UNIT) / (UNIT as int) + 1);
        }
        while movement != 0
            invariant
                m0 > 0 ==> 0 <= movement <= m0,
                m0 < 0 ==> m0 <= movement <= 0,
                axis_get(position@, other_axis(axis)) == axis_get(pos0, other_axis(axis)),
                iabs(axis_get(position@, axis) - axis_get(pos0, axis)) <= iabs(m0) - iabs(
                    movement as int,
                ),
                sweep_from(pos0, axis, sign as int, n0, collider@, solids) == sweep_from(
                    position@,
                    axis,
                    sign as int,
                    iabs(movement as int) as nat,
                    collider@,
                    solids,
                ),
            decreases iabs(movement as int),
        {
            let next = match axis {
                Axis::X => Vec2i { x: position.0.x + sign, y: position.0.y },
                Axis::Y => Vec2i { x: position.0.x, y: position.0.y + sign },
            };
            proof {
                assert(next@ == axis_step(position@, axis, sign as int));
            }
            match check_for_collision(collider, &next, solid_colliders) {
                Option::Some(collision) => {
                    proof {
                        assert(sweep_from(
                            position@,
                            axis,
                            sign as int,
                            iabs(movement as int) as nat,
                            collider@,
                            solids,
                        ) == (position@, first_collision(collider@, next@, solids)));
                    }
                    return Option::Some(collision);
                },
                Option::None => {
                    proof {
                        assert(sweep_from(
                            position@,
                            axis,
                            sign as int,
                            iabs(movement as int) as nat,
                            collider@,
                            solids,
                        ) == sweep_from(
                            next@,
                            axis,
                            sign as int,
                            (iabs(movement as int) - 1) as nat,
                            collider@,
                            solids,
                        ));
                    }
                    match axis {
                        Axis::X => {
                            position.0.x = position.0.x + sign;
                        },
                        Axis::Y => {
                            position.0.y = position.0.y + sign;
                        },
                    }
                    movement = movement - sign;
                },
            }
        }
    } else {
        match axis {
            Axis::X => {
                remainder.0.x = r;
            },
            Axis::Y => {
                remainder.0.y = r;
            },
        }
        proof {
            assert(remainder@ == axis_set(rem0, axis, r as int));
        }
    }
    Option::None
}

/// Sweeps the actor along the X axis by `move_amount` sub-units, mutating
/// position and remainder; returns the first blocking solid, or `None` when
/// the whole rounded displacement was committed.
pub fn move_x(
    move_amount: i64,
    position: &mut Position,
    remainder: &mut Remainder,
    collider: &AABB,
    solid_colliders: &Vec<(Vec2i, AABB)>,
) -> (hit: Option<Collision>)
    requires
        iabs(move_amount as int) <= MOVE_LIMIT as int,
        v2_in_range(old(position)@, 3 * POS_LIMIT as int),
        iabs(old(remainder)@.x) < UNIT as int,
        iabs(old(remainder)@.y) < UNIT as int,
        box_in_range(collider@),
        pairs_in_range(pairs_view(solid_colliders@)),
    ensures
        ({
            let o = axis_sweep(
                move_amount as int,
                old(position)@,
                old(remainder)@,
                Axis::X,
                collider@,
                pairs_view(solid_colliders@),
            );
            &&& final(position)@ == o.position
            &&& final(remainder)@ == o.remainder
            &&& contact_view(hit) == o.hit
        }),
{
    move_on_axis(Axis::X, move_amount, position, remainder, collider, solid_colliders)
}

/// Sweeps the actor along the Y axis; the exact counterpart of [`move_x`].
pub fn move_y(
    move_amount: i64,
    position: &mut Position,
    remainder: &mut Remainder,
    collider: &AABB,
    solid_colliders: &Vec<(Vec2i, AABB)>,
) -> (hit: Option<Collision>)
    requires
        iabs(move_amount as int) <= MOVE_LIMIT as int,
        v2_in_range(old(position)@, 3 * POS_LIMIT as int),
        iabs(old(remainder)@.x) < UNIT as int,
        iabs(old(remainder)@.y) < UNIT as int,
        box_in_range(collider@),
        pairs_in_range(pairs_view(solid_colliders@)),
    ensures
        ({
            let o = axis_sweep(
                move_amount as int,
                old(position)@,
                old(remainder)@,
                Axis::Y,
                collider@,
                pairs_view(solid_colliders@),
            );
            &&& final(position)@ == o.position
            &&& final(remainder)@ == o.remainder
            &&& contact_view(hit) == o.hit
        }),
{
    move_on_axis(Axis::Y, move_amount, position, remainder, collider, solid_colliders)
}

} // verus!
