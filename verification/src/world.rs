//! The world sweep pass and the staged tick pipeline.
//!
//! Once per tick, after acceleration has been integrated into velocity, the
//! pass snapshots every solid's position and collider, then sweeps every
//! actor against that immutable snapshot: the X axis first, then the Y axis
//! — a fixed, deliberate tie-break, so diagonal contact against a corner is
//! seen as an X collision before any Y motion is attempted. Each actor's
//! velocity is then recomputed from the distance actually travelled, its
//! acceleration is cleared, and a fresh [`CollisionResult`] mailbox records
//! which axes were blocked.

use vstd::prelude::*;

use crate::body::{
    body_in_bounds, collision_result_view, Acceleration, Body, BodyBundle, BodyType, BodyView,
    Velocity,
};
use crate::collision::{
    pairs_in_range, pairs_view, Box2, CollisionResult,
    CollisionResultView, AABB,
};
use crate::math::{
    div_toward_zero, div_trunc, lemma_div_toward_zero_le, lemma_mul_range, v2_zero, Vec2, Vec2i, DT_LIMIT, MOVE_LIMIT, UNIT, VEL_LIMIT,
};
use crate::sweep::{axis_sweep, lemma_axis_sweep_props, move_x, move_y, Axis};

verus! {

/// Every body within the machine-limit envelope a sweep needs.
pub open spec fn world_in_bounds(bodies: Seq<BodyView>) -> bool {
    forall|i: int| 0 <= i < bodies.len() ==> body_in_bounds(#[trigger] bodies[i])
}

/// The solid snapshot: position and collider of every `Solid` body, in body
/// order.
pub open spec fn solids_of(bodies: Seq<BodyView>) -> Seq<(Vec2, Box2)>
    decreases bodies.len(),
{
    if bodies.len() == 0 {
        Seq::empty()
    } else {
        let rest = solids_of(bodies.drop_last());
        if bodies.last().body_type is Solid {
            rest.push((bodies.last().position, bodies.last().collider))
        } else {
            rest
        }
    }
}

/// A snapshot taken from an in-bounds world is in range.
pub proof fn lemma_solids_of_in_range(bodies: Seq<BodyView>)
    requires
        world_in_bounds(bodies),
    ensures
        pairs_in_range(solids_of(bodies)),
    decreases bodies.len(),
{
    if bodies.len() > 0 {
        assert(world_in_bounds(bodies.drop_last())) by {
            assert(forall|i: int|
                0 <= i < bodies.len() - 1 ==> bodies.drop_last()[i] == #[trigger] bodies[i]);
        }
        lemma_solids_of_in_range(bodies.drop_last());
        assert(body_in_bounds(bodies.last()));
        let s = solids_of(bodies);
        let rest = solids_of(bodies.drop_last());
        if bodies.last().body_type is Solid {
            assert(forall|i: int| 0 <= i < rest.len() ==> #[trigger] s[i] == rest[i]);
        }
    }
}

/// The displacement (in sub-units) a velocity component requests in one tick.
pub open spec fn tick_amount(vel_axis: int, dt: int) -> int {
    div_toward_zero(vel_axis * dt, UNIT as int)
}

/// Velocity (in sub-units per second) equivalent to travelling `delta_units`
/// whole units in one tick of length `dt`.
pub open spec fn achieved_velocity(delta_units: int, dt: int) -> int {
    div_toward_zero(delta_units * (UNIT as int) * (UNIT as int), dt)
}

/// One actor's whole tick: X sweep, then Y sweep from where X ended, then
/// velocity recomputed from achieved motion, acceleration cleared, and the
/// collision mailbox filled.
pub open spec fn actor_swept(b: BodyView, dt: int, solids: Seq<(Vec2, Box2)>) -> BodyView {
    let ox = axis_sweep(
        tick_amount(b.velocity.x, dt),
        b.position,
        b.remainder,
        Axis::X,
        b.collider,
        solids,
    );
    let oy = axis_sweep(
        tick_amount(b.velocity.y, dt),
        ox.position,
        ox.remainder,
        Axis::Y,
        b.collider,
        solids,
    );
    BodyView {
        body_type: b.body_type,
        position: oy.position,
        velocity: Vec2 {
            x: achieved_velocity(oy.position.x - b.position.x, dt),
            y: achieved_velocity(oy.position.y - b.position.y, dt),
        },
        acceleration: v2_zero(),
        remainder: oy.remainder,
        collider: b.collider,
        collision: Option::Some(
            CollisionResultView { x_collision_body: ox.hit, y_collision_body: oy.hit },
        ),
    }
}

/// What the pass does to one body: actors are swept, solids are untouched.
pub open spec fn body_after_tick(b: BodyView, dt: int, solids: Seq<(Vec2, Box2)>) -> BodyView {
    if b.body_type is Actor {
        actor_swept(b, dt, solids)
    } else {
        b
    }
}

/// The whole pass over the world, against the snapshot taken at its start.
pub open spec fn world_after_sweep(bodies: Seq<BodyView>, dt: int) -> Seq<BodyView> {
    bodies.map_values(|b: BodyView| body_after_tick(b, dt, solids_of(bodies)))
}

/// The physics world: the explicit, owned collection of bodies the sweep
/// runs over.
pub struct PhysicsWorld {
    pub bodies: Vec<Body>,
}

impl View for PhysicsWorld {
    type V = Seq<BodyView>;

    open spec fn view(&self) -> Seq<BodyView> {
        self.bodies@.map_values(|b: Body| b@)
    }
}

impl PhysicsWorld {
    /// An empty world.
    pub fn new() -> (w: PhysicsWorld)
        ensures
            w@.len() == 0,
    {
        PhysicsWorld { bodies: Vec::new() }
    }

    /// Number of bodies.
    pub fn len(&self) -> (n: usize)
        ensures
            n == self@.len(),
    {
        self.bodies.len()
    }

    /// Spawns a body from its bundle and collider; acceleration starts at
    /// zero and the collision mailbox empty. Returns the body's index.
    pub fn spawn(&mut self, bundle: BodyBundle, collider: AABB) -> (idx: usize)
        ensures
            idx == old(self)@.len(),
            final(self)@ == old(self)@.push(
                BodyView {
                    body_type: bundle.body_type,
                    position: bundle.position@,
                    velocity: bundle.velocity@,
                    acceleration: v2_zero(),
                    remainder: bundle.remainder@,
                    collider: collider@,
                    collision: Option::None,
                },
            ),
    {
        let idx = self.bodies.len();
        let body = Body {
            body_type: bundle.body_type,
            position: bundle.position,
            velocity: bundle.velocity,
            acceleration: Acceleration(Vec2i::zero()),
            remainder: bundle.remainder,
            collider: collider,
            collision: Option::None,
        };
        self.bodies.push(body);
        proof {
            assert(self@ =~= old(self)@.push(body@));
        }
        idx
    }

    /// Read access to one body.
    pub fn body(&self, i: usize) -> (b: &Body)
        requires
            i < self@.len(),
        ensures
            b@ == self@[i as int],
    {
        &self.bodies[i]
    }

    /// Overwrites one body's velocity; how external systems hand the sweep
    /// its per-tick input.
    pub fn set_velocity(&mut self, i: usize, v: Velocity)
        requires
            i < old(self)@.len(),
        ensures
            final(self)@ =~= old(self)@.update(
                i as int,
                BodyView { velocity: v@, ..old(self)@[i as int] },
            ),
    {
        let mut body = self.bodies[i];
        body.velocity = v;
        self.bodies[i] = body;
        proof {
            assert(self@ =~= old(self)@.update(i as int, body@));
        }
    }

    /// Overwrites one body's acceleration; how pre-step systems accumulate
    /// force.
    pub fn set_acceleration(&mut self, i: usize, a: Acceleration)
        requires
            i < old(self)@.len(),
        ensures
            final(self)@ =~= old(self)@.update(
                i as int,
                BodyView { acceleration: a@, ..old(self)@[i as int] },
            ),
    {
        let mut body = self.bodies[i];
        body.acceleration = a;
        self.bodies[i] = body;
        proof {
            assert(self@ =~= old(self)@.update(i as int, body@));
        }
    }

    /// Drains the single-tick collision mailbox: returns what the sweep left
    /// and removes it, so the record cannot leak into the next tick.
    pub fn take_collision_result(&mut self, i: usize) -> (r: Option<CollisionResult>)
        requires
            i < old(self)@.len(),
        ensures
            collision_result_view(r) == old(self)@[i as int].collision,
            final(self)@ =~= old(self)@.update(
                i as int,
                BodyView { collision: Option::None, ..old(self)@[i as int] },
            ),
    {
        let mut body = self.bodies[i];
        let r = body.collision;
        body.collision = Option::None;
        self.bodies[i] = body;
        proof {
            assert(self@ =~= old(self)@.update(i as int, body@));
        }
        r
    }
}

/// The world sweep pass: snapshots all solids, then sweeps every actor
/// against the snapshot, X before Y; solids are never displaced.
#[verifier::loop_isolation(false)]
pub fn move_actor(world: &mut PhysicsWorld, dt: i64)
    requires
        1 <= dt <= DT_LIMIT,
        world_in_bounds(old(world)@),
    ensures
        final(world)@ == world_after_sweep(old(world)@, dt as int),
{
    let ghost w0 = world@;

    let mut solid_colliders: Vec<(Vec2i, AABB)> = Vec::new();
    let mut i: usize = 0;
    while i < world.bodies.len()
        invariant
            i <= w0.len(),
            pairs_view(solid_colliders@) == solids_of(w0.take(i as int)),
        decreases w0.len() - i,
    {
        let b = world.bodies[i];
        proof {
            assert(b@ == w0[i as int]);
            assert(w0.take(i as int + 1).drop_last() =~= w0.take(i as int));
            assert(w0.take(i as int + 1).last() == w0[i as int]);
        }
        match b.body_type {
            BodyType::Solid => {
                solid_colliders.push((b.position.0, b.collider));
                proof {
                    assert(pairs_view(solid_colliders@) =~= solids_of(w0.take(i as int + 1)));
                }
            },
            BodyType::Actor => {
                proof {
                    assert(pairs_view(solid_colliders@) =~= solids_of(w0.take(i as int + 1)));
                }
            },
        }
        i = i + 1;
    }
    proof {
        assert(w0.take(w0.len() as int) =~= w0);
        lemma_solids_of_in_range(w0);
    }
    let ghost solids = pairs_view(solid_colliders@);

    let mut i: usize = 0;
    while i < world.bodies.len()
        invariant
            i <= w0.len(),
            world.bodies@.len() == w0.len(),
            forall|j: int| i <= j < w0.len() ==> (#[trigger] world.bodies@[j])@ == w0[j],
            forall|j: int|
                0 <= j < i ==> (#[trigger] world.bodies@[j])@ == body_after_tick(
                    w0[j],
                    dt as int,
                    solids,
                ),
        decreases w0.len() - i,
    {
        let b = world.bodies[i];
        proof {
            assert(b@ == w0[i as int]);
            assert(body_in_bounds(w0[i as int]));
        }
        match b.body_type {
            BodyType::Actor => {
                proof {
                    lemma_mul_range(
                        b.velocity.0.x as int,
                        dt as int,
                        VEL_LIMIT as int,
                        DT_LIMIT as int,
                    );
                    lemma_mul_range(
                        b.velocity.0.y as int,
                        dt as int,
                        VEL_LIMIT as int,
                        DT_LIMIT as int,
                    );
                    lemma_div_toward_zero_le(
                        b.velocity.0.x as int * dt as int,
                        UNIT as int,
                        VEL_LIMIT as int * DT_LIMIT as int,
                    );
                    lemma_div_toward_zero_le(
                        b.velocity.0.y as int * dt as int,
                        UNIT as int,
                        VEL_LIMIT as int * DT_LIMIT as int,
                    );
                }
                let amount_x = div_trunc(b.velocity.0.x * dt, UNIT);
                let amount_y = div_trunc(b.velocity.0.y * dt, UNIT);
                let mut position = b.position;
                let mut remainder = b.remainder;
                let x_hit = move_x(amount_x, &mut position, &mut remainder, &b.collider, &solid_colliders);
                proof {
                    lemma_axis_sweep_props(
                        amount_x as int,
                        b.position@,
                        b.remainder@,
                        Axis::X,
                        b.collider@,
                        solids,
                    );
                    lemma_div_toward_zero_le(amount_x as int, UNIT as int, MOVE_LIMIT as int);
                }
                let y_hit = move_y(amount_y, &mut position, &mut remainder, &b.collider, &solid_colliders);
                proof {
                    lemma_axis_sweep_props(
                        amount_y as int,
                        axis_sweep(
                            amount_x as int,
                            b.position@,
                            b.remainder@,
                            Axis::X,
                            b.collider@,
                            solids,
                        ).position,
                        axis_sweep(
                            amount_x as int,
                            b.position@,
                            b.remainder@,
                            Axis::X,
                            b.collider@,
                            solids,
                        ).remainder,
                        Axis::Y,
                        b.collider@,
                        solids,
                    );
                    lemma_div_toward_zero_le(amount_y as int, UNIT as int, MOVE_LIMIT as int);
                }
                let dx = position.0.x - b.position.0.x;
                let dy = position.0.y - b.position.0.y;
                let vx = div_trunc(dx * UNIT * UNIT, dt);
                let vy = div_trunc(dy * UNIT * UNIT, dt);
                let new_body = Body {
                    body_type: b.body_type,
                    position: position,
                    velocity: Velocity(Vec2i { x: vx, y: vy }),
                    acceleration: Acceleration(Vec2i::zero()),
                    remainder: remainder,
                    collider: b.collider,
                    collision: Option::Some(
                        CollisionResult { x_collision_body: x_hit, y_collision_body: y_hit },
                    ),
                };
                world.bodies[i] = new_body;
                proof {
                    assert(new_body@ == actor_swept(w0[i as int], dt as int, solids));
                }
            },
            BodyType::Solid => {
                proof {
                    assert(body_after_tick(w0[i as int], dt as int, solids) == w0[i as int]);
                }
            },
        }
        i = i + 1;
    }
    proof {
        assert(world@ =~= world_after_sweep(w0, dt as int));
    }
}

/// The three ordered phases of a tick; each is a barrier the next may rely
/// on. External input, AI and gravity write acceleration in `PreStep`;
/// integration and the world sweep run in `Step`; `PostStep` copies
/// positions into the renderable transform and drains collision mailboxes.
#[derive(Clone, Copy, PartialEq, Eq, Structural, Hash, Debug)]
pub enum PhysicsStages {
    PreStep,
    Step,
    PostStep,
}

/// Ordering labels inside the `Step` phase: integration runs before the
/// actor sweep.
#[derive(Clone, Copy, PartialEq, Eq, Structural, Hash, Debug)]
pub enum StepSystemLabels {
    Integrate,
    MoveActors,
}

/// The tick pipeline itself: a fixed three-phase sequence. The host calls
/// the phases in the order [`PhysicsPlugin::stage_order`] gives, and inside
/// `Step` runs the systems in the order [`PhysicsPlugin::step_system_order`]
/// gives.
pub struct PhysicsPlugin;

impl PhysicsPlugin {
    /// The fixed phase order of one tick.
    pub fn stage_order() -> (order: Vec<PhysicsStages>)
        ensures
            order@ == seq![
                PhysicsStages::PreStep,
                PhysicsStages::Step,
                PhysicsStages::PostStep,
            ],
    {
        let mut order: Vec<PhysicsStages> = Vec::new();
        order.push(PhysicsStages::PreStep);
        order.push(PhysicsStages::Step);
        order.push(PhysicsStages::PostStep);
        proof {
            assert(order@ =~= seq![
                PhysicsStages::PreStep,
                PhysicsStages::Step,
                PhysicsStages::PostStep,
            ]);
        }
        order
    }

    /// The fixed system order inside the `Step` phase.
    pub fn step_system_order() -> (order: Vec<StepSystemLabels>)
        ensures
            order@ == seq![StepSystemLabels::Integrate, StepSystemLabels::MoveActors],
    {
        let mut order: Vec<StepSystemLabels> = Vec::new();
        order.push(StepSystemLabels::Integrate);
        order.push(StepSystemLabels::MoveActors);
        proof {
            assert(order@ =~= seq![StepSystemLabels::Integrate, StepSystemLabels::MoveActors]);
        }
        order
    }
}

} // verus!

