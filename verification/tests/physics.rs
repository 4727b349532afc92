use circle_physics::body::Body;
use circle_physics::body::Bounds;
use circle_physics::body::FrameContext;
use circle_physics::body::Position;
use circle_physics::body::Velocity;
use circle_physics::body::WallPolicy;
use circle_physics::body::CIRCLE_RADIUS;
use circle_physics::fixed::SCALE;
use circle_physics::fixed::TICKS_PER_SECOND;
use circle_physics::step::advance_frame;
use circle_physics::step::circle_movement;
use circle_physics::step::click_world_position;
use circle_physics::step::confine_circle_movement;
use circle_physics::step::cursor_force;
use circle_physics::step::gravity;
use circle_physics::step::physics_step;
use circle_physics::step::wall_rebound;
use circle_physics::step::wall_stop;
use circle_physics::step::GRAVITY_PER_TICK;
use circle_physics::step::SPEED_MULTIPLIER;

fn body_at(x: i64, y: i64, vh: i64, vv: i64) -> Body {
    Body {
        position: Position { x, y },
        velocity: Velocity {
            horizontal: vh,
            vertical: vv,
        },
    }
}

fn square_bounds(r: i64) -> Bounds {
    Bounds {
        x_min: -r,
        x_max: r,
        y_min: -r,
        y_max: r,
    }
}

#[test]
fn integration_zero_velocity_is_a_no_op() {
    for dt in [1, 2, 60, 1_000_000] {
        let mut b = Body::new(1_234, -5_678);
        circle_movement(&mut b, dt);
        assert_eq!(b.position, Position { x: 1_234, y: -5_678 });
        assert_eq!(b.velocity, Velocity { horizontal: 0, vertical: 0 });
    }
}

#[test]
fn integration_moves_by_velocity_times_multiplier() {
    // 60 stored units of velocity for one tick of 1/60 s: 32 * 60 / 60 = 32.
    let mut b = body_at(100, 200, 60, -120);
    circle_movement(&mut b, 1);
    assert_eq!(b.position, Position { x: 132, y: 136 });
    // Velocity is untouched by integration.
    assert_eq!(b.velocity, Velocity { horizontal: 60, vertical: -120 });
}

#[test]
fn gravity_constant_matches_9_81() {
    // 9.81 world units per second squared, exact at this scale.
    assert_eq!(100 * TICKS_PER_SECOND * GRAVITY_PER_TICK, 981 * SCALE);
    assert_eq!(SPEED_MULTIPLIER, 32);
    assert_eq!(CIRCLE_RADIUS, 32 * SCALE);
}

#[test]
fn gravity_drops_vertical_velocity_exactly() {
    let mut b = Body::new(0, 0);
    gravity(&mut b, 1);
    assert_eq!(b.velocity.vertical, -GRAVITY_PER_TICK);
    gravity(&mut b, 1);
    assert_eq!(b.velocity.vertical, -2 * GRAVITY_PER_TICK);
    // Unconditional, with no floor: it keeps dropping below any bound,
    // and a larger dt drops proportionally more.
    gravity(&mut b, 1_000);
    assert_eq!(b.velocity.vertical, -1_002 * GRAVITY_PER_TICK);
    // The horizontal axis and the position are untouched.
    assert_eq!(b.velocity.horizontal, 0);
    assert_eq!(b.position, Position { x: 0, y: 0 });
}

#[test]
fn wall_stop_zeroes_outward_velocity_at_wall() {
    let bounds = square_bounds(1_000);
    // At the right wall with outward velocity: after one frame the
    // horizontal velocity is exactly zero and the position is back at the
    // wall.
    let mut b = body_at(1_000, 0, 600, 0);
    physics_step(&mut b, &bounds, 1, WallPolicy::Stop);
    assert_eq!(b.velocity.horizontal, 0);
    assert_eq!(b.position.x, 1_000);
    // And it stays there, frame after frame, until an external force.
    for _ in 0..10 {
        physics_step(&mut b, &bounds, 1, WallPolicy::Stop);
        assert_eq!(b.velocity.horizontal, 0);
        assert_eq!(b.position.x, 1_000);
    }
}

#[test]
fn wall_stop_reads_the_pre_clamp_position() {
    let bounds = square_bounds(1_000);
    // Out of bounds on both axes: both components are zeroed, the
    // position is left for the clamp stage.
    let mut b = body_at(1_500, -2_000, 7, -9);
    wall_stop(&mut b, &bounds);
    assert_eq!(b.velocity, Velocity { horizontal: 0, vertical: 0 });
    assert_eq!(b.position, Position { x: 1_500, y: -2_000 });
    // In bounds: nothing happens.
    let mut c = body_at(0, 0, 7, -9);
    wall_stop(&mut c, &bounds);
    assert_eq!(c.velocity, Velocity { horizontal: 7, vertical: -9 });
}

#[test]
fn rebound_is_exactly_minus_point_eight() {
    let bounds = square_bounds(1_000);
    // Hitting the right wall at velocity 500: the post-rebound velocity
    // is exactly -0.80 * 500 = -400.
    let mut b = body_at(1_200, 0, 500, 0);
    wall_rebound(&mut b, &bounds);
    assert_eq!(b.velocity.horizontal, -400);
    assert_eq!(b.position, Position { x: 1_200, y: 0 });
    // Left wall, inward sign flips back.
    let mut c = body_at(-1_200, 0, -500, 0);
    wall_rebound(&mut c, &bounds);
    assert_eq!(c.velocity.horizontal, 400);
}

#[test]
fn repeated_rebounds_decay_geometrically() {
    let bounds = square_bounds(1_000);
    let mut b = body_at(1_200, 0, 500, 0);
    let mut speed = 500i64;
    for _ in 0..30 {
        wall_rebound(&mut b, &bounds);
        let after = b.velocity.horizontal.abs();
        // Never any energy gain; exactly 4/5 while divisible by 5.
        assert!(5 * after <= 4 * speed);
        speed = after;
    }
    assert_eq!(speed, 0);
}

#[test]
fn clamp_is_idempotent_and_in_bounds_is_a_no_op() {
    let bounds = square_bounds(1_000);
    let mut b = body_at(5_000, -5_000, 3, 4);
    confine_circle_movement(&mut b, &bounds);
    assert_eq!(b.position, Position { x: 1_000, y: -1_000 });
    let clamped_once = b.position;
    confine_circle_movement(&mut b, &bounds);
    assert_eq!(b.position, clamped_once);
    // Velocity is never touched by the clamp.
    assert_eq!(b.velocity, Velocity { horizontal: 3, vertical: 4 });
    // An in-bounds position is left exactly alone.
    let mut c = body_at(999, -1_000, 0, 0);
    confine_circle_movement(&mut c, &bounds);
    assert_eq!(c.position, Position { x: 999, y: -1_000 });
}

#[test]
fn click_at_body_position_changes_nothing() {
    let mut b = body_at(123, -456, 7, 8);
    cursor_force(&mut b, Position { x: 123, y: -456 });
    assert_eq!(b.velocity, Velocity { horizontal: 7, vertical: 8 });
    assert_eq!(b.position, Position { x: 123, y: -456 });
}

#[test]
fn click_offset_adds_one_hundredth_of_the_displacement() {
    let mut b = body_at(0, 0, 0, 0);
    // Offset (200, -300): adds exactly (2, -3).
    cursor_force(&mut b, Position { x: 200, y: -300 });
    assert_eq!(b.velocity, Velocity { horizontal: 2, vertical: -3 });
    // A second press edge adds again: once per press edge, each call is
    // one edge.
    cursor_force(&mut b, Position { x: 200, y: -300 });
    assert_eq!(b.velocity, Velocity { horizontal: 4, vertical: -6 });
}

#[test]
fn click_window_coordinates_become_centered_world_coordinates() {
    let p = click_world_position(0, 0, 8_000_000, 6_000_000);
    assert_eq!(p, Position { x: -4_000_000, y: -3_000_000 });
    let q = click_world_position(4_000_000, 3_000_000, 8_000_000, 6_000_000);
    assert_eq!(q, Position { x: 0, y: 0 });
}

#[test]
fn bounds_from_window_inset_by_radius() {
    // A 800 x 600 world-unit window, centered origin.
    let bounds = Bounds::from_window(800 * SCALE, 600 * SCALE);
    assert_eq!(bounds.x_min, -368 * SCALE);
    assert_eq!(bounds.x_max, 368 * SCALE);
    assert_eq!(bounds.y_min, -268 * SCALE);
    assert_eq!(bounds.y_max, 268 * SCALE);
}

#[test]
fn a_frame_with_a_click_applies_the_impulse_then_the_step() {
    let bounds = Bounds::from_window(800 * SCALE, 600 * SCALE);
    let mut b = Body::new(0, 0);
    let ctx = FrameContext {
        dt: 1,
        click: Some(Position { x: 6_000, y: 0 }),
    };
    // The click adds 60 horizontal velocity; one tick then moves the body
    // 32 * 60 / 60 = 32 stored units, and gravity starts pulling.
    advance_frame(&mut b, &bounds, &ctx, WallPolicy::Rebound);
    assert_eq!(b.velocity.horizontal, 60);
    assert_eq!(b.position.x, 32);
    assert_eq!(b.velocity.vertical, -GRAVITY_PER_TICK);
}

#[test]
fn thousand_frames_of_gravity_stay_inside_the_window() {
    // Body at the window center, at rest, in a 800 x 600 window with
    // elastic rebound, stepped 1000 frames of 1/60 s.
    let bounds = Bounds::from_window(800 * SCALE, 600 * SCALE);
    let mut b = Body::new(0, 0);
    for _ in 0..1_000 {
        physics_step(&mut b, &bounds, 1, WallPolicy::Rebound);
        // Never outside the inset bounds: |y| <= 600 / 2 - 32 = 268.
        assert!(-268 * SCALE <= b.position.y && b.position.y <= 268 * SCALE);
        assert!(-368 * SCALE <= b.position.x && b.position.x <= 368 * SCALE);
        // The vertical speed stays bounded: no energy gain, no overflow
        // (100 world units per second is far above terminal speed here).
        assert!(b.velocity.vertical.abs() <= 100 * SCALE);
    }
}

#[test]
fn dt_zero_changes_nothing_but_touches_every_stage() {
    let bounds = square_bounds(1_000);
    let mut b = body_at(10, 20, 30, 40);
    physics_step(&mut b, &bounds, 0, WallPolicy::Rebound);
    assert_eq!(b.position, Position { x: 10, y: 20 });
    assert_eq!(b.velocity, Velocity { horizontal: 30, vertical: 40 });
}
