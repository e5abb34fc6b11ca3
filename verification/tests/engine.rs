//! End-to-end scenarios for the world sweep pass.

use platformer_physics::body::{BodyBundle, BodyType, Position, Remainder, Velocity};
use platformer_physics::collision::AABB;
use platformer_physics::math::{Vec2i, UNIT};
use platformer_physics::world::{move_actor, PhysicsPlugin, PhysicsStages, PhysicsWorld, StepSystemLabels};

fn unit_box() -> AABB {
    AABB {
        position: Vec2i { x: 0, y: 0 },
        half_size: Vec2i { x: 1, y: 1 },
    }
}

fn spawn_at(world: &mut PhysicsWorld, kind: BodyType, x: i64, y: i64) -> usize {
    world.spawn(
        BodyBundle {
            body_type: kind,
            velocity: Velocity(Vec2i { x: 0, y: 0 }),
            position: Position(Vec2i { x, y }),
            remainder: Remainder(Vec2i { x: 0, y: 0 }),
        },
        unit_box(),
    )
}

/// Wall stop: an actor asking for ten units of motion toward a solid two
/// units wide comes to rest flush against it, with an X contact recorded.
#[test]
fn wall_stop() {
    let mut world = PhysicsWorld::new();
    let actor = spawn_at(&mut world, BodyType::Actor, 0, 0);
    let solid = spawn_at(&mut world, BodyType::Solid, 5, 0);

    // 10 units per second, one-second tick.
    world.set_velocity(actor, Velocity(Vec2i { x: 10 * UNIT, y: 0 }));
    move_actor(&mut world, UNIT);

    let a = world.body(actor);
    assert_eq!(a.position.0, Vec2i { x: 3, y: 0 });
    assert_eq!(a.remainder.0, Vec2i { x: 0, y: 0 });
    // Achieved velocity: three units in one second.
    assert_eq!(a.velocity.0, Vec2i { x: 3 * UNIT, y: 0 });
    assert_eq!(a.acceleration.0, Vec2i { x: 0, y: 0 });

    let result = a.collision.expect("actor sweep must attach a result");
    let x_hit = result.x_collision_body.expect("the X axis was blocked");
    assert_eq!(x_hit.position, Vec2i { x: 5, y: 0 });
    assert_eq!(x_hit.collider, unit_box());
    assert!(result.y_collision_body.is_none());

    // The solid never moved and got no mailbox.
    let s = world.body(solid);
    assert_eq!(s.position.0, Vec2i { x: 5, y: 0 });
    assert!(s.collision.is_none());
}

/// Order of axes: with one solid blocking to the right and one above, the
/// X sweep runs first and its contact names the right-hand solid; the Y
/// sweep then runs from where X stopped.
#[test]
fn axis_order_x_first() {
    let mut world = PhysicsWorld::new();
    let actor = spawn_at(&mut world, BodyType::Actor, 0, 0);
    let _right = spawn_at(&mut world, BodyType::Solid, 3, 0);
    let _above = spawn_at(&mut world, BodyType::Solid, 0, 3);

    world.set_velocity(actor, Velocity(Vec2i { x: 10 * UNIT, y: 10 * UNIT }));
    move_actor(&mut world, UNIT);

    let a = world.body(actor);
    assert_eq!(a.position.0, Vec2i { x: 1, y: 1 });
    let result = a.collision.expect("actor sweep must attach a result");
    let x_hit = result.x_collision_body.expect("X blocked by the right solid");
    assert_eq!(x_hit.position, Vec2i { x: 3, y: 0 });
    let y_hit = result.y_collision_body.expect("Y blocked by the upper solid");
    assert_eq!(y_hit.position, Vec2i { x: 0, y: 3 });
}

/// Idle invariant, concretely: zero velocity and acceleration leave the
/// position untouched over many ticks.
#[test]
fn idle_actor_stays_put() {
    let mut world = PhysicsWorld::new();
    let actor = spawn_at(&mut world, BodyType::Actor, 7, -4);
    let _floor = spawn_at(&mut world, BodyType::Solid, 7, -7);

    for _ in 0..25 {
        move_actor(&mut world, 16);
        let a = world.body(actor);
        assert_eq!(a.position.0, Vec2i { x: 7, y: -4 });
        assert_eq!(a.velocity.0, Vec2i { x: 0, y: 0 });
        assert_eq!(a.remainder.0, Vec2i { x: 0, y: 0 });
    }
}

/// Sub-unit velocities accumulate in the remainder and pay out whole steps
/// exactly when the rounded remainder reaches a unit; the remainder stays
/// strictly below one unit throughout.
#[test]
fn remainder_accumulates_fractional_motion() {
    let mut world = PhysicsWorld::new();
    let actor = spawn_at(&mut world, BodyType::Actor, 0, 0);

    // 0.4 units per second, one-second ticks.
    let expected = [(0i64, 400i64), (1, -200), (1, 200), (2, -400), (2, 0)];
    for (x, rem_x) in expected {
        world.set_velocity(actor, Velocity(Vec2i { x: 400, y: 0 }));
        move_actor(&mut world, UNIT);
        let a = world.body(actor);
        assert_eq!(a.position.0.x, x);
        assert_eq!(a.remainder.0.x, rem_x);
        assert!(a.remainder.0.x.abs() < UNIT);
        assert!(a.remainder.0.y.abs() < UNIT);
    }
}

/// Round trip: whole-unit velocity forward for three ticks and backward for
/// three returns to the exact starting position with a zero remainder.
#[test]
fn round_trip_returns_exactly() {
    let mut world = PhysicsWorld::new();
    let actor = spawn_at(&mut world, BodyType::Actor, -2, 9);

    world.set_velocity(actor, Velocity(Vec2i { x: 2 * UNIT, y: -UNIT }));
    for _ in 0..3 {
        move_actor(&mut world, UNIT);
    }
    assert_eq!(world.body(actor).position.0, Vec2i { x: 4, y: 6 });

    world.set_velocity(actor, Velocity(Vec2i { x: -2 * UNIT, y: UNIT }));
    for _ in 0..3 {
        move_actor(&mut world, UNIT);
    }
    let a = world.body(actor);
    assert_eq!(a.position.0, Vec2i { x: -2, y: 9 });
    assert_eq!(a.remainder.0, Vec2i { x: 0, y: 0 });
}

/// Determinism: the same spawn and the same velocity schedule give
/// bit-identical trajectories on two separate runs.
#[test]
fn identical_runs_identical_trajectories() {
    let run = || -> Vec<(i64, i64, i64, i64)> {
        let mut world = PhysicsWorld::new();
        let actor = spawn_at(&mut world, BodyType::Actor, 0, 0);
        let _wall = spawn_at(&mut world, BodyType::Solid, 9, 0);
        let mut trace = Vec::new();
        for tick in 0..20 {
            world.set_velocity(
                actor,
                Velocity(Vec2i { x: 700 + 13 * tick, y: -350 + 29 * tick }),
            );
            move_actor(&mut world, 16);
            let a = world.body(actor);
            trace.push((a.position.0.x, a.position.0.y, a.remainder.0.x, a.remainder.0.y));
        }
        trace
    };
    assert_eq!(run(), run());
}

/// Ties among simultaneously blocking solids go to snapshot order: the
/// first solid spawned wins.
#[test]
fn first_blocking_solid_wins() {
    let mut world = PhysicsWorld::new();
    let actor = spawn_at(&mut world, BodyType::Actor, 0, 0);
    // Two solids, both blocking the same step; the lower index wins.
    let _first = spawn_at(&mut world, BodyType::Solid, 3, 1);
    let _second = spawn_at(&mut world, BodyType::Solid, 3, -1);

    world.set_velocity(actor, Velocity(Vec2i { x: 5 * UNIT, y: 0 }));
    move_actor(&mut world, UNIT);

    let a = world.body(actor);
    assert_eq!(a.position.0, Vec2i { x: 1, y: 0 });
    let x_hit = a.collision.unwrap().x_collision_body.expect("X blocked");
    assert_eq!(x_hit.position, Vec2i { x: 3, y: 1 });
}

/// The collision mailbox is written fresh each tick and drained on demand.
#[test]
fn collision_mailbox_is_single_tick() {
    let mut world = PhysicsWorld::new();
    let actor = spawn_at(&mut world, BodyType::Actor, 0, 0);
    let _wall = spawn_at(&mut world, BodyType::Solid, 3, 0);

    world.set_velocity(actor, Velocity(Vec2i { x: 5 * UNIT, y: 0 }));
    move_actor(&mut world, UNIT);
    let first = world.take_collision_result(actor);
    assert!(first.unwrap().x_collision_body.is_some());
    assert!(world.body(actor).collision.is_none());

    // Next tick: stopped flush, no further motion requested, clean result.
    world.set_velocity(actor, Velocity(Vec2i { x: 0, y: 0 }));
    move_actor(&mut world, UNIT);
    let second = world.take_collision_result(actor).unwrap();
    assert!(second.x_collision_body.is_none());
    assert!(second.y_collision_body.is_none());
}

/// The pipeline's fixed orders.
#[test]
fn pipeline_orders_are_fixed() {
    assert_eq!(
        PhysicsPlugin::stage_order(),
        vec![PhysicsStages::PreStep, PhysicsStages::Step, PhysicsStages::PostStep]
    );
    assert_eq!(
        PhysicsPlugin::step_system_order(),
        vec![StepSystemLabels::Integrate, StepSystemLabels::MoveActors]
    );
}

/// An actor resting flush against a solid may slide along it: touching
/// boxes do not collide.
#[test]
fn sliding_along_a_wall() {
    let mut world = PhysicsWorld::new();
    let actor = spawn_at(&mut world, BodyType::Actor, 3, 0);
    let _wall = spawn_at(&mut world, BodyType::Solid, 5, 0);

    // Flush against the wall (actor max x = 4 = wall min x); move up.
    world.set_velocity(actor, Velocity(Vec2i { x: 0, y: 4 * UNIT }));
    move_actor(&mut world, UNIT);

    let a = world.body(actor);
    assert_eq!(a.position.0, Vec2i { x: 3, y: 4 });
    let result = a.collision.unwrap();
    assert!(result.x_collision_body.is_none());
    assert!(result.y_collision_body.is_none());
}
