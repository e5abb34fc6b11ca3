//! Engine-level properties, stated and proved once over the mathematical
//! model of the sweep: idle bodies stay put, remainders stay sub-unit,
//! solids never move, non-penetration is preserved, trajectories are
//! functions of their inputs, and unobstructed whole-unit motion retraces
//! itself exactly.

use vstd::prelude::*;

use crate::body::{remainder_settled, BodyView};
use crate::collision::{clear_of_solids, Box2};
use crate::math::{
    iabs, lemma_div_toward_zero_odd, lemma_round_exact, lemma_round_to_units_props, v2, v2_zero, Vec2, HALF_UNIT, UNIT,
};
use crate::sweep::{
    axis_get, axis_set, axis_sweep, axis_step, lemma_axis_sweep_props, other_axis, sweep_from,
    Axis, };
use crate::world::{
    actor_swept, solids_of, tick_amount, world_after_sweep, };

verus! {

/// The world after `n` complete sweep passes, each with the same tick
/// length.
pub open spec fn run_sweeps(bodies: Seq<BodyView>, dt: int, n: nat) -> Seq<BodyView>
    decreases n,
{
    if n == 0 {
        bodies
    } else {
        run_sweeps(world_after_sweep(bodies, dt), dt, (n - 1) as nat)
    }
}

/// A sweep pass keeps the number of bodies and every body's kind, collider
/// and (for solids) whole record.
pub proof fn lemma_sweep_preserves_shape(bodies: Seq<BodyView>, dt: int)
    ensures
        world_after_sweep(bodies, dt).len() == bodies.len(),
        forall|i: int|
            0 <= i < bodies.len() ==> (#[trigger] world_after_sweep(bodies, dt)[i]).body_type
                == bodies[i].body_type,
        forall|i: int|
            0 <= i < bodies.len() ==> (#[trigger] world_after_sweep(bodies, dt)[i]).collider
                == bodies[i].collider,
        forall|i: int|
            0 <= i < bodies.len() && bodies[i].body_type is Solid ==> (
            #[trigger] world_after_sweep(bodies, dt)[i]) == bodies[i],
{
}

/// Mutual exclusivity, the solid half: a sweep pass never touches a solid,
/// over any number of ticks.
pub proof fn lemma_solids_never_move(bodies: Seq<BodyView>, dt: int, n: nat, i: int)
    requires
        0 <= i < bodies.len(),
        bodies[i].body_type is Solid,
    ensures
        run_sweeps(bodies, dt, n).len() == bodies.len(),
        run_sweeps(bodies, dt, n)[i] == bodies[i],
    decreases n,
{
    if n > 0 {
        lemma_sweep_preserves_shape(bodies, dt);
        lemma_solids_never_move(world_after_sweep(bodies, dt), dt, (n - 1) as nat, i);
    }
}

/// Remainder bound: whatever sub-unit remainder an actor entered the tick
/// with, after the sweep both axes of its remainder are at most half a
/// unit — in particular strictly below one unit.
pub proof fn lemma_remainder_bound(bodies: Seq<BodyView>, dt: int, i: int)
    requires
        0 <= i < bodies.len(),
        bodies[i].body_type is Actor,
        iabs(bodies[i].remainder.x) < UNIT as int,
        iabs(bodies[i].remainder.y) < UNIT as int,
    ensures
        iabs(world_after_sweep(bodies, dt)[i].remainder.x) <= HALF_UNIT as int,
        iabs(world_after_sweep(bodies, dt)[i].remainder.y) <= HALF_UNIT as int,
{
    let b = bodies[i];
    let solids = solids_of(bodies);
    let ox = axis_sweep(tick_amount(b.velocity.x, dt), b.position, b.remainder, Axis::X, b.collider, solids);
    lemma_axis_sweep_props(
        tick_amount(b.velocity.x, dt),
        b.position,
        b.remainder,
        Axis::X,
        b.collider,
        solids,
    );
    lemma_axis_sweep_props(
        tick_amount(b.velocity.y, dt),
        ox.position,
        ox.remainder,
        Axis::Y,
        b.collider,
        solids,
    );
}

/// Non-penetration: an actor that starts a tick clear of every solid ends
/// the tick clear of every solid — the sweep never commits an overlapping
/// step.
pub proof fn lemma_non_penetration(bodies: Seq<BodyView>, dt: int, i: int)
    requires
        0 <= i < bodies.len(),
        bodies[i].body_type is Actor,
        iabs(bodies[i].remainder.x) < UNIT as int,
        iabs(bodies[i].remainder.y) < UNIT as int,
        clear_of_solids(bodies[i].collider, bodies[i].position, solids_of(bodies)),
    ensures
        clear_of_solids(
            bodies[i].collider,
            world_after_sweep(bodies, dt)[i].position,
            solids_of(bodies),
        ),
{
    let b = bodies[i];
    let solids = solids_of(bodies);
    let ox = axis_sweep(tick_amount(b.velocity.x, dt), b.position, b.remainder, Axis::X, b.collider, solids);
    lemma_axis_sweep_props(
        tick_amount(b.velocity.x, dt),
        b.position,
        b.remainder,
        Axis::X,
        b.collider,
        solids,
    );
    lemma_axis_sweep_props(
        tick_amount(b.velocity.y, dt),
        ox.position,
        ox.remainder,
        Axis::Y,
        b.collider,
        solids,
    );
}

/// Idle invariant: an actor with zero velocity and zero acceleration whose
/// remainder is too small to round to a step keeps its exact position — and
/// its zero velocity and settled remainder — over any number of ticks.
pub proof fn lemma_idle_actor_fixed(bodies: Seq<BodyView>, dt: int, n: nat, i: int)
    requires
        0 <= i < bodies.len(),
        bodies[i].body_type is Actor,
        bodies[i].velocity == v2_zero(),
        bodies[i].acceleration == v2_zero(),
        remainder_settled(bodies[i].remainder),
        dt >= 1,
    ensures
        run_sweeps(bodies, dt, n).len() == bodies.len(),
        run_sweeps(bodies, dt, n)[i].position == bodies[i].position,
        run_sweeps(bodies, dt, n)[i].velocity == v2_zero(),
        run_sweeps(bodies, dt, n)[i].acceleration == v2_zero(),
        run_sweeps(bodies, dt, n)[i].remainder == bodies[i].remainder,
    decreases n,
{
    if n > 0 {
        let b = bodies[i];
        let solids = solids_of(bodies);
        let next = world_after_sweep(bodies, dt);
        lemma_sweep_preserves_shape(bodies, dt);
        assert(0 * dt == 0) by (nonlinear_arith);
        assert(tick_amount(0, dt) == 0);
        lemma_round_to_units_props(b.remainder.x);
        lemma_round_to_units_props(b.remainder.y);
        let ox = axis_sweep(0, b.position, b.remainder, Axis::X, b.collider, solids);
        assert(ox.position == b.position);
        assert(ox.remainder == b.remainder) by {
            assert(axis_set(b.remainder, Axis::X, b.remainder.x) == b.remainder);
        }
        let oy = axis_sweep(0, ox.position, ox.remainder, Axis::Y, b.collider, solids);
        assert(oy.position == b.position);
        assert(oy.remainder == b.remainder) by {
            assert(axis_set(b.remainder, Axis::Y, b.remainder.y) == b.remainder);
        }
        assert(crate::world::achieved_velocity(0, dt) == 0) by {
            assert(0 * (UNIT as int) * (UNIT as int) == 0);
        }
        assert(next[i].position == b.position);
        assert(next[i].velocity == v2_zero());
        assert(next[i].acceleration == v2_zero());
        assert(next[i].remainder == b.remainder);
        lemma_idle_actor_fixed(next, dt, (n - 1) as nat, i);
    }
}

/// Determinism: the model of a sweep pass is a function of the body
/// sequence and the tick length alone, so identical inputs give identical
/// trajectories, tick for tick.
pub proof fn lemma_sweep_deterministic(
    a: Seq<BodyView>,
    b: Seq<BodyView>,
    dt_a: int,
    dt_b: int,
    n: nat,
)
    requires
        a == b,
        dt_a == dt_b,
    ensures
        run_sweeps(a, dt_a, n) == run_sweeps(b, dt_b, n),
{
}

/// One actor driven by an external system that rewrites its velocity every
/// tick, then lets the sweep run against a fixed solid snapshot.
pub open spec fn ticks_with_velocity(
    b: BodyView,
    v: Vec2,
    dt: int,
    solids: Seq<(Vec2, Box2)>,
    n: nat,
) -> BodyView
    decreases n,
{
    if n == 0 {
        b
    } else {
        ticks_with_velocity(
            actor_swept(BodyView { velocity: v, ..b }, dt, solids),
            v,
            dt,
            solids,
            (n - 1) as nat,
        )
    }
}

/// With no solids in the snapshot, the unit-step walk never stops early and
/// travels its full budget.
proof fn lemma_sweep_from_no_solids(pos: Vec2, a: Axis, sign: int, n: nat)
    requires
        sign == 1 || sign == -1,
    ensures
        sweep_from(pos, a, sign, n, arbitrary(), Seq::<(Vec2, Box2)>::empty()).1 is None,
        axis_get(sweep_from(pos, a, sign, n, arbitrary(), Seq::<(Vec2, Box2)>::empty()).0, a)
            == axis_get(pos, a) + n * sign,
        axis_get(
            sweep_from(pos, a, sign, n, arbitrary(), Seq::<(Vec2, Box2)>::empty()).0,
            other_axis(a),
        ) == axis_get(pos, other_axis(a)),
    decreases n,
{
    if n > 0 {
        let next = axis_step(pos, a, sign);
        lemma_sweep_from_no_solids(next, a, sign, (n - 1) as nat);
        assert(((n - 1) as int) * sign + sign == n * sign) by (nonlinear_arith);
    }
}

/// One unobstructed tick whose displacement is a whole number of units per
/// axis: the position advances by exactly that many units and the remainder
/// returns to zero.
proof fn lemma_whole_unit_tick(b: BodyView, v: Vec2, kx: int, ky: int, dt: int)
    requires
        dt >= 1,
        b.remainder == v2_zero(),
        tick_amount(v.x, dt) == kx * (UNIT as int),
        tick_amount(v.y, dt) == ky * (UNIT as int),
    ensures
        ({
            let after = actor_swept(BodyView { velocity: v, ..b }, dt, Seq::<(Vec2, Box2)>::empty());
            &&& after.position == v2(b.position.x + kx, b.position.y + ky)
            &&& after.remainder == v2_zero()
            &&& after.body_type == b.body_type
            &&& after.collider == b.collider
        }),
{
    let solids = Seq::<(Vec2, Box2)>::empty();
    let bv = BodyView { velocity: v, ..b };
    lemma_round_exact(kx);
    lemma_round_exact(ky);
    let ox = axis_sweep(kx * (UNIT as int), bv.position, bv.remainder, Axis::X, bv.collider, solids);
    assert(kx * (UNIT as int) - kx * (UNIT as int) == 0);
    if kx == 0 {
        assert(kx * (UNIT as int) == 0);
        assert(ox.position == bv.position);
        assert(ox.remainder == v2_zero()) by {
            assert(axis_set(v2_zero(), Axis::X, 0) == v2_zero());
        }
    } else {
        let sign = if kx > 0 {
            1int
        } else {
            -1int
        };
        lemma_sweep_from_no_solids(bv.position, Axis::X, sign, iabs(kx) as nat);
        assert(sweep_from(bv.position, Axis::X, sign, iabs(kx) as nat, bv.collider, solids)
            == sweep_from(bv.position, Axis::X, sign, iabs(kx) as nat, arbitrary(), solids)) by {
            lemma_sweep_from_solids_free(bv.position, Axis::X, sign, iabs(kx) as nat, bv.collider);
        }
        assert(iabs(kx) * sign == kx) by (nonlinear_arith)
            requires
                sign == if kx > 0 {
                    1int
                } else {
                    -1int
                },
                kx != 0,
        ;
        assert(ox.remainder == v2_zero()) by {
            assert(axis_set(v2_zero(), Axis::X, 0) == v2_zero());
        }
    }
    assert(ox.position == v2(b.position.x + kx, b.position.y));
    let oy = axis_sweep(ky * (UNIT as int), ox.position, ox.remainder, Axis::Y, bv.collider, solids);
    if ky == 0 {
        assert(ky * (UNIT as int) == 0);
        assert(oy.position == ox.position);
        assert(oy.remainder == v2_zero()) by {
            assert(axis_set(v2_zero(), Axis::Y, 0) == v2_zero());
        }
    } else {
        let sign = if ky > 0 {
            1int
        } else {
            -1int
        };
        lemma_sweep_from_no_solids(ox.position, Axis::Y, sign, iabs(ky) as nat);
        assert(sweep_from(ox.position, Axis::Y, sign, iabs(ky) as nat, bv.collider, solids)
            == sweep_from(ox.position, Axis::Y, sign, iabs(ky) as nat, arbitrary(), solids)) by {
            lemma_sweep_from_solids_free(ox.position, Axis::Y, sign, iabs(ky) as nat, bv.collider);
        }
        assert(iabs(ky) * sign == ky) by (nonlinear_arith)
            requires
                sign == if ky > 0 {
                    1int
                } else {
                    -1int
                },
                ky != 0,
        ;
        assert(oy.remainder == v2_zero()) by {
            assert(axis_set(v2_zero(), Axis::Y, 0) == v2_zero());
        }
    }
    assert(oy.position == v2(b.position.x + kx, b.position.y + ky));
}

/// With an empty snapshot the walk ignores the collider entirely.
proof fn lemma_sweep_from_solids_free(pos: Vec2, a: Axis, sign: int, n: nat, collider: Box2)
    ensures
        sweep_from(pos, a, sign, n, collider, Seq::<(Vec2, Box2)>::empty()) == sweep_from(
            pos,
            a,
            sign,
            n,
            arbitrary(),
            Seq::<(Vec2, Box2)>::empty(),
        ),
    decreases n,
{
    if n > 0 {
        lemma_sweep_from_solids_free(axis_step(pos, a, sign), a, sign, (n - 1) as nat, collider);
    }
}

/// `t` unobstructed whole-unit ticks advance the position by exactly
/// `t * (kx, ky)` and leave the remainder at zero.
proof fn lemma_constant_velocity_run(b: BodyView, v: Vec2, kx: int, ky: int, dt: int, t: nat)
    requires
        dt >= 1,
        b.remainder == v2_zero(),
        tick_amount(v.x, dt) == kx * (UNIT as int),
        tick_amount(v.y, dt) == ky * (UNIT as int),
    ensures
        ({
            let after = ticks_with_velocity(b, v, dt, Seq::<(Vec2, Box2)>::empty(), t);
            &&& after.position == v2(b.position.x + t * kx, b.position.y + t * ky)
            &&& after.remainder == v2_zero()
        }),
    decreases t,
{
    if t == 0 {
        assert(0 * kx == 0) by (nonlinear_arith);
        assert(0 * ky == 0) by (nonlinear_arith);
        assert(ticks_with_velocity(b, v, dt, Seq::<(Vec2, Box2)>::empty(), t).position == v2(
            b.position.x + 0,
            b.position.y + 0,
        ));
    } else {
        lemma_whole_unit_tick(b, v, kx, ky, dt);
        let b1 = actor_swept(BodyView { velocity: v, ..b }, dt, Seq::<(Vec2, Box2)>::empty());
        lemma_constant_velocity_run(b1, v, kx, ky, dt, (t - 1) as nat);
        assert(((t - 1) as int) * kx + kx == t * kx) by (nonlinear_arith);
        assert(((t - 1) as int) * ky + ky == t * ky) by (nonlinear_arith);
    }
}

/// Round trip: with no obstacles, no starting remainder, and a velocity
/// whose per-tick displacement is a whole number of units on each axis,
/// `t` ticks forward followed by `t` ticks with the opposite velocity
/// return the actor to its exact starting position with zero remainder —
/// no fractional motion leaks across the trip.
pub proof fn lemma_round_trip(b: BodyView, v: Vec2, kx: int, ky: int, dt: int, t: nat)
    requires
        dt >= 1,
        b.remainder == v2_zero(),
        tick_amount(v.x, dt) == kx * (UNIT as int),
        tick_amount(v.y, dt) == ky * (UNIT as int),
    ensures
        ({
            let fwd = ticks_with_velocity(b, v, dt, Seq::<(Vec2, Box2)>::empty(), t);
            let back = ticks_with_velocity(
                fwd,
                v2(-v.x, -v.y),
                dt,
                Seq::<(Vec2, Box2)>::empty(),
                t,
            );
            &&& back.position == b.position
            &&& back.remainder == v2_zero()
        }),
{
    lemma_constant_velocity_run(b, v, kx, ky, dt, t);
    let fwd = ticks_with_velocity(b, v, dt, Seq::<(Vec2, Box2)>::empty(), t);
    assert(tick_amount(-v.x, dt) == (-kx) * (UNIT as int)) by {
        assert(-v.x * dt == -(v.x * dt)) by (nonlinear_arith);
        lemma_div_toward_zero_odd(v.x * dt, UNIT as int);
        assert((-kx) * (UNIT as int) == -(kx * (UNIT as int))) by (nonlinear_arith);
    }
    assert(tick_amount(-v.y, dt) == (-ky) * (UNIT as int)) by {
        assert(-v.y * dt == -(v.y * dt)) by (nonlinear_arith);
        lemma_div_toward_zero_odd(v.y * dt, UNIT as int);
        assert((-ky) * (UNIT as int) == -(ky * (UNIT as int))) by (nonlinear_arith);
    }
    lemma_constant_velocity_run(fwd, v2(-v.x, -v.y), (-kx), (-ky), dt, t);
    assert(b.position.x + t * kx + t * (-kx) == b.position.x) by (nonlinear_arith);
    assert(b.position.y + t * ky + t * (-ky) == b.position.y) by (nonlinear_arith);
}

} // verus!
