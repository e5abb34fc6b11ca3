//! Unit tests for the colliders, the player systems, the animation state
//! machine and the level conversions.

use platformer_physics::animation::{
    animate_sprite_step, player_animation_definitions, player_animation_update, sprite_flip,
    update_player_animation, AnimationPlugin, Col, PlayerAnimationUpdate, Row,
    SpriteSheetDefinition,
};
use platformer_physics::body::{Acceleration, BodyType, Velocity};
use platformer_physics::collision::{
    check_for_collision, CollisionResult, Intersection, AABB,
};
use platformer_physics::level::{
    convert_ldtk_entity_to_bevy, convert_to_world, layer_info_for, snap_to_grid, tile_flip_flags,
};
use platformer_physics::math::{Vec2i, UNIT};
use platformer_physics::player::{
    collision_check, gravity, integrate_movement, move_player, PlayerControls, PlayerJumpParams,
    PlayerWalkParams,
};

fn aabb(px: i64, py: i64, hx: i64, hy: i64) -> AABB {
    AABB {
        position: Vec2i { x: px, y: py },
        half_size: Vec2i { x: hx, y: hy },
    }
}

#[test]
fn touching_boxes_do_not_intersect() {
    // max of a = 4 = min of b: flush, not colliding.
    let a = aabb(3, 0, 1, 1);
    let b = aabb(5, 0, 1, 1);
    assert!(!AABB::interescts(&a, &b));
    // One unit closer: strict overlap on both axes.
    let c = aabb(4, 0, 1, 1);
    assert!(AABB::interescts(&c, &b));
    // Overlap in X alone is not a collision.
    let d = aabb(4, 5, 1, 1);
    assert!(!AABB::interescts(&d, &b));
}

#[test]
fn aabb_corners_and_translation() {
    let b = aabb(2, -3, 4, 5);
    assert_eq!(b.min(), Vec2i { x: -2, y: -8 });
    assert_eq!(b.max(), Vec2i { x: 6, y: 2 });
    let moved = b.adjusted_position(&Vec2i { x: 10, y: 20 });
    assert_eq!(moved.position, Vec2i { x: 12, y: 17 });
    assert_eq!(moved.half_size, b.half_size);
}

#[test]
fn aabb_new_rejects_negative_extents() {
    assert!(AABB::new(Vec2i { x: 0, y: 0 }, Vec2i { x: 1, y: 1 }).is_some());
    assert!(AABB::new(Vec2i { x: 0, y: 0 }, Vec2i { x: 0, y: 0 }).is_some());
    assert!(AABB::new(Vec2i { x: 0, y: 0 }, Vec2i { x: -1, y: 1 }).is_none());
    assert!(AABB::new(Vec2i { x: 0, y: 0 }, Vec2i { x: 1, y: -1 }).is_none());
}

#[test]
fn check_for_collision_scans_in_order() {
    let collider = aabb(0, 0, 1, 1);
    let solids = vec![
        (Vec2i { x: 9, y: 9 }, aabb(0, 0, 1, 1)),
        (Vec2i { x: 0, y: 1 }, aabb(0, 0, 1, 1)),
        (Vec2i { x: 1, y: 0 }, aabb(0, 0, 1, 1)),
    ];
    let hit = check_for_collision(&collider, &Vec2i { x: 0, y: 0 }, &solids)
        .expect("two solids overlap; the first must win");
    assert_eq!(hit.position, Vec2i { x: 0, y: 1 });

    let clear = check_for_collision(&collider, &Vec2i { x: 5, y: 5 }, &solids);
    assert!(clear.is_none());
}

#[test]
fn default_body_kind_is_solid() {
    assert_eq!(BodyType::default(), BodyType::Solid);
    assert!(BodyType::Actor != BodyType::Solid);
}

#[test]
fn integrate_movement_adds_and_clamps() {
    let walk = PlayerWalkParams { walk_accel: 6000, max_walk_speed: 700 };
    let jump = sample_jump_params();

    // Plain accumulation, same direction.
    let mut vel = Velocity(Vec2i { x: 100, y: 0 });
    let mut acc = Acceleration(Vec2i { x: 200, y: 0 });
    integrate_movement(&mut vel, &mut acc, &walk, &jump, UNIT);
    assert_eq!(vel.0, Vec2i { x: 300, y: 0 });
    assert_eq!(acc.0, Vec2i { x: 0, y: 0 });

    // Clamped at the walk cap.
    let mut vel = Velocity(Vec2i { x: 600, y: 0 });
    let mut acc = Acceleration(Vec2i { x: 500, y: 0 });
    integrate_movement(&mut vel, &mut acc, &walk, &jump, UNIT);
    assert_eq!(vel.0.x, 700);

    // A reversal replaces the horizontal velocity instead of adding.
    let mut vel = Velocity(Vec2i { x: 500, y: 0 });
    let mut acc = Acceleration(Vec2i { x: -200, y: 0 });
    integrate_movement(&mut vel, &mut acc, &walk, &jump, UNIT);
    assert_eq!(vel.0.x, -200);

    // Falling is floored at max_fall_speed.
    let mut vel = Velocity(Vec2i { x: 0, y: -600 });
    let mut acc = Acceleration(Vec2i { x: 0, y: -300 });
    integrate_movement(&mut vel, &mut acc, &walk, &jump, UNIT);
    assert_eq!(vel.0.y, -700);
}

fn sample_jump_params() -> PlayerJumpParams {
    PlayerJumpParams {
        gravity: Vec2i { x: 0, y: -3000 },
        jump_acceleration: 7000,
        max_jump_duration: 80,
        max_fall_speed: -700,
        jump_timer: 0,
        grounded: false,
        is_jumping: false,
    }
}

#[test]
fn gravity_accumulates_into_acceleration() {
    let jump = sample_jump_params();
    let mut acc = Acceleration(Vec2i { x: 7, y: 100 });
    gravity(&mut acc, &jump);
    assert_eq!(acc.0, Vec2i { x: 7, y: -2900 });
}

#[test]
fn collision_check_grounds_on_y_contact() {
    let mut jump = sample_jump_params();
    let no_hit = CollisionResult { x_collision_body: None, y_collision_body: None };
    collision_check(&mut jump, &no_hit);
    assert!(!jump.grounded);

    let solid = AABB {
        position: Vec2i { x: 0, y: 0 },
        half_size: Vec2i { x: 1, y: 1 },
    };
    let y_hit = CollisionResult {
        x_collision_body: None,
        y_collision_body: Some(platformer_physics::collision::Collision {
            position: Vec2i { x: 0, y: -2 },
            collider: solid,
        }),
    };
    collision_check(&mut jump, &y_hit);
    assert!(jump.grounded);
    // Staying grounded is sticky within the check itself.
    collision_check(&mut jump, &no_hit);
    assert!(jump.grounded);
}

#[test]
fn move_player_direction_keys() {
    let walk = PlayerWalkParams { walk_accel: 6000, max_walk_speed: 700 };

    // Both keys: horizontal velocity zeroed, no acceleration written.
    let mut jump = sample_jump_params();
    let mut vel = Velocity(Vec2i { x: 400, y: 0 });
    let mut acc = Acceleration(Vec2i { x: 0, y: 0 });
    let both = PlayerControls {
        left: true,
        right: true,
        jump: false,
        jump_just_pressed: false,
        jump_just_released: false,
    };
    move_player(&both, &walk, &mut jump, &mut vel, &mut acc, 16);
    assert_eq!(vel.0.x, 0);
    assert_eq!(acc.0.x, 0);

    // Left only: acceleration goes negative, velocity untouched.
    let mut vel = Velocity(Vec2i { x: 400, y: 0 });
    let mut acc = Acceleration(Vec2i { x: 0, y: 0 });
    let left = PlayerControls { left: true, right: false, ..both };
    move_player(&left, &walk, &mut jump, &mut vel, &mut acc, 16);
    assert_eq!(vel.0.x, 400);
    assert_eq!(acc.0.x, -6000);
}

#[test]
fn move_player_jump_window() {
    let walk = PlayerWalkParams { walk_accel: 6000, max_walk_speed: 700 };
    let mut jump = sample_jump_params();
    jump.grounded = true;

    let mut vel = Velocity(Vec2i { x: 0, y: 0 });
    let mut acc = Acceleration(Vec2i { x: 0, y: 0 });
    let press = PlayerControls {
        left: false,
        right: false,
        jump: true,
        jump_just_pressed: true,
        jump_just_released: false,
    };
    move_player(&press, &walk, &mut jump, &mut vel, &mut acc, 16);
    assert!(jump.is_jumping);
    assert!(!jump.grounded);
    // The window opened and the first boost tick ran.
    assert_eq!(jump.jump_timer, 80 - 16);
    assert_eq!(acc.0.y, 7000);

    // Releasing the key closes the window.
    let release = PlayerControls {
        jump: false,
        jump_just_pressed: false,
        jump_just_released: true,
        ..press
    };
    move_player(&release, &walk, &mut jump, &mut vel, &mut acc, 16);
    assert!(!jump.is_jumping);

    // An airborne player cannot start another jump.
    let mut acc2 = Acceleration(Vec2i { x: 0, y: 0 });
    move_player(&press, &walk, &mut jump, &mut vel, &mut acc2, 16);
    assert!(!jump.is_jumping);
    assert_eq!(acc2.0.y, 0);
}

#[test]
fn animation_state_transitions() {
    let (jump, fall, idle, run) = (
        PlayerAnimationUpdate::Jump,
        PlayerAnimationUpdate::Fall,
        PlayerAnimationUpdate::Idle,
        PlayerAnimationUpdate::Run,
    );
    let cases = [
        (jump, (0, -5), fall),
        (jump, (0, 0), fall),
        (jump, (0, 5), jump),
        (fall, (0, 0), idle),
        (fall, (0, 5), jump),
        (fall, (3, -5), fall),
        (idle, (4, 0), run),
        // The run check is evaluated last and wins over the fall check.
        (idle, (4, -5), run),
        (idle, (0, 5), jump),
        (idle, (0, -5), fall),
        (idle, (0, 0), idle),
        (run, (0, -5), idle),
        (run, (4, 5), jump),
        (run, (4, 0), run),
    ];
    for (start, (vx, vy), expected) in cases {
        let mut state = start;
        player_animation_update(&mut state, &Velocity(Vec2i { x: vx, y: vy }));
        assert_eq!(state, expected, "from {:?} with velocity ({}, {})", start, vx, vy);
    }
}

fn sample_sheet() -> SpriteSheetDefinition {
    SpriteSheetDefinition {
        animation_definitions: player_animation_definitions(),
        rows: 15,
        columns: 8,
    }
}

#[test]
fn sprite_frames_advance_and_wrap() {
    let sheet = sample_sheet();
    // Row 5 ("idle") has four frames.
    let row = Row(5);
    let mut col = Col(2);
    let index = animate_sprite_step(&sheet, &row, &mut col);
    assert_eq!(col.0, 3);
    assert_eq!(index, 3 + 8 * 5);
    let index = animate_sprite_step(&sheet, &row, &mut col);
    assert_eq!(col.0, 0);
    assert_eq!(index, 8 * 5);
    // The plugin's entry point is the same step.
    let index = AnimationPlugin::advance(&sheet, &row, &mut col);
    assert_eq!(col.0, 1);
    assert_eq!(index, 1 + 8 * 5);
}

#[test]
fn player_animation_rows_and_timer() {
    let sheet = sample_sheet();
    let mut row = Row(0);
    let mut col = Col(3);
    let timer = update_player_animation(&PlayerAnimationUpdate::Idle, &sheet, &mut row, &mut col);
    assert_eq!(row.0, 5);
    assert_eq!(col.0, 0);
    assert_eq!(timer, (100, true));

    let timer = update_player_animation(&PlayerAnimationUpdate::Run, &sheet, &mut row, &mut col);
    assert_eq!(row.0, 1);
    assert_eq!(timer, (70, true));

    let timer = update_player_animation(&PlayerAnimationUpdate::Fall, &sheet, &mut row, &mut col);
    assert_eq!(row.0, 6);
    assert_eq!(timer, (70, true));

    let timer = update_player_animation(&PlayerAnimationUpdate::Jump, &sheet, &mut row, &mut col);
    assert_eq!(row.0, 7);
    assert_eq!(timer, (70, true));
}

#[test]
fn animation_table_matches_the_sheet() {
    let defs = player_animation_definitions();
    assert_eq!(defs.len(), 8);
    assert_eq!(defs[0].name, "death");
    assert_eq!(defs[0].number_of_frames, 8);
    assert_eq!(defs[5].name, "idle");
    assert_eq!(defs[5].number_of_frames, 4);
    assert_eq!(defs[5].frame_time, 100);
    assert!(defs[5].repeating);
    assert_eq!(defs[3].name, "attack_no_slash");
    assert!(!defs[3].repeating);
}

#[test]
fn sprite_flip_follows_velocity() {
    assert!(sprite_flip(&Velocity(Vec2i { x: -3, y: 0 }), false));
    assert!(!sprite_flip(&Velocity(Vec2i { x: 3, y: 0 }), true));
    assert!(sprite_flip(&Velocity(Vec2i { x: 0, y: 5 }), true));
    assert!(!sprite_flip(&Velocity(Vec2i { x: 0, y: 5 }), false));
}

#[test]
fn tile_world_conversion() {
    // A 16-pixel grid at scale 4 (4000 sub-units per pixel), layer
    // 1024 x 512 pixels at that scale.
    let scale = 4 * UNIT;
    let width = 256 * 16 * scale;
    let height = 128 * 16 * scale;
    let (pos, z) = convert_to_world(width, height, 16, scale, 0, 0, 30);
    assert_eq!(z, 30);
    // Tile centre: half a cell in, measured from the layer centre.
    assert_eq!(pos.x, 16 * scale / 2 - width / 2);
    assert_eq!(pos.y, -(16 * scale / 2) + height / 2);

    let (pos2, _) = convert_to_world(width, height, 16, scale, 16, 16, 30);
    assert_eq!(pos2.x, pos.x + 16 * scale);
    assert_eq!(pos2.y, pos.y - 16 * scale);
}

#[test]
fn entity_world_conversion() {
    let scale = 4 * UNIT;
    // A 32 x 16 pixel entity at pixel (8, 24) in a 4096 x 2048 sub-unit layer.
    let (pos, half) = convert_ldtk_entity_to_bevy(
        Vec2i { x: 8, y: 24 },
        Vec2i { x: 32, y: 16 },
        Vec2i { x: 4096, y: 2048 },
        scale,
    );
    assert_eq!(half, Vec2i { x: 16 * scale, y: 8 * scale });
    assert_eq!(pos.x, 8 * scale + 16 * scale - 2048);
    assert_eq!(pos.y, -(24 * scale + 8 * scale) + 1024);
}

#[test]
fn tile_flips() {
    assert_eq!(tile_flip_flags(0), (false, false));
    assert_eq!(tile_flip_flags(1), (true, false));
    assert_eq!(tile_flip_flags(2), (false, true));
    assert_eq!(tile_flip_flags(3), (true, true));
    assert_eq!(tile_flip_flags(7), (false, false));
}

#[test]
fn layer_info_values() {
    let info = layer_info_for(256, 128, 16, 4 * UNIT, 3);
    assert_eq!(info.grid_width, 256);
    assert_eq!(info.grid_height, 128);
    assert_eq!(info.grid_cell_size, 16);
    assert_eq!(info.z_index, 47);
    assert_eq!(info.px_width, 256 * 16 * 4 * UNIT);
    assert_eq!(info.px_height, 128 * 16 * 4 * UNIT);
}

#[test]
fn grid_snapping_rounds_ties_away_from_zero() {
    assert_eq!(snap_to_grid(Vec2i { x: 499, y: -499 }), Vec2i { x: 0, y: 0 });
    assert_eq!(snap_to_grid(Vec2i { x: 500, y: -500 }), Vec2i { x: 1, y: -1 });
    assert_eq!(snap_to_grid(Vec2i { x: 1499, y: 2501 }), Vec2i { x: 1, y: 3 });
    assert_eq!(snap_to_grid(Vec2i { x: -1500, y: 0 }), Vec2i { x: -2, y: 0 });
}
