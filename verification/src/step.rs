//! The per-frame update: integrate the position from the velocity, apply
//! gravity to the vertical velocity, answer a wall hit (stop or elastic
//! rebound), and clamp the position back into bounds — in that order, the
//! wall response reading the pre-clamp candidate position. A pointer click
//! adds a one-shot impulse toward the click point.

use vstd::prelude::*;
use crate::body::Body;
use crate::body::Bounds;
use crate::body::FrameContext;
use crate::body::Position;
use crate::body::WallPolicy;
use crate::fixed::div_toward_zero;
use crate::fixed::in_coord_range;
use crate::fixed::lemma_trunc_div_bounded;
use crate::fixed::saturate;
use crate::fixed::saturated;
use crate::fixed::trunc_div;
use crate::fixed::COORD_LIMIT;
use crate::fixed::TICKS_PER_SECOND;

verus! {

/// Scale from stored velocity units to position units per second.
pub const SPEED_MULTIPLIER: i64 = 32;

/// How much a tick of gravity takes off the vertical velocity:
/// 9.81 world units per second squared, exactly, at the fixed-point scale
/// (981 * SCALE / (100 * TICKS_PER_SECOND) stored units per tick).
pub const GRAVITY_PER_TICK: i64 = 1_635;

/// An elastic rebound keeps this fraction of the speed: 4/5 (elasticity 0.80).
pub const ELASTICITY_NUM: i64 = 4;

/// Denominator of the elasticity fraction.
pub const ELASTICITY_DEN: i64 = 5;

/// A click adds 1/100 of the displacement to the velocity (force scale 0.01).
pub const CURSOR_FORCE_DEN: i64 = 100;

/// How far one axis travels in `dt` ticks at stored velocity `v`:
/// `v * SPEED_MULTIPLIER * dt` seconds' worth of motion, rounded toward zero.
pub open spec fn movement_delta(v: int, dt: int) -> int {
    trunc_div(SPEED_MULTIPLIER * v * dt, TICKS_PER_SECOND as int)
}

/// One axis of the integration stage: the position moved by its delta,
/// saturated into the representable interval.
pub open spec fn moved(p: int, v: int, dt: int) -> int {
    saturated(p + movement_delta(v, dt))
}

/// The vertical velocity after `dt` ticks of gravity.
pub open spec fn after_gravity(v: int, dt: int) -> int {
    saturated(v - GRAVITY_PER_TICK * dt)
}

/// The velocity an elastic rebound leaves on the axis that hit a wall:
/// flipped, at 4/5 of the magnitude, rounded toward zero.
pub open spec fn rebounded(v: int) -> int {
    -trunc_div(ELASTICITY_NUM * v, ELASTICITY_DEN as int)
}

/// The velocity the configured policy leaves on the axis that hit a wall.
pub open spec fn wall_response(policy: WallPolicy, v: int) -> int {
    match policy {
        WallPolicy::Stop => 0,
        WallPolicy::Rebound => rebounded(v),
    }
}

/// `x` clamped into `[lo, hi]`.
pub open spec fn clamped(x: int, lo: int, hi: int) -> int {
    if x < lo {
        lo
    } else if x > hi {
        hi
    } else {
        x
    }
}

/// The impulse a click adds to one velocity axis, from the displacement
/// `diff` between the click point and the body.
pub open spec fn impulse_delta(diff: int) -> int {
    trunc_div(diff, CURSOR_FORCE_DEN as int)
}

/// One axis of a whole physics step. `v_move` is the velocity the
/// integration stage reads; `v_hit` is the velocity on the axis when the
/// wall response runs (on the vertical axis gravity has acted by then).
/// Returns the new position and the new velocity of the axis: the wall
/// response fires exactly when the pre-clamp candidate position left
/// `[lo, hi]`, and the position is clamped last.
pub open spec fn stepped_axis(
    p: int,
    v_move: int,
    v_hit: int,
    lo: int,
    hi: int,
    dt: int,
    policy: WallPolicy,
) -> (int, int) {
    let c = moved(p, v_move, dt);
    (
        clamped(c, lo, hi),
        if c < lo || c > hi {
            wall_response(policy, v_hit)
        } else {
            v_hit
        },
    )
}

/// Integration: move the position by `velocity * SPEED_MULTIPLIER * dt`
/// seconds' worth on each axis, leaving the velocity alone.
pub fn circle_movement(body: &mut Body, dt: i64)
    requires
        old(body).wf(),
        dt >= 0,
    ensures
        final(body).position.x as int == moved(
            old(body).position.x as int,
            old(body).velocity.horizontal as int,
            dt as int,
        ),
        final(body).position.y as int == moved(
            old(body).position.y as int,
            old(body).velocity.vertical as int,
            dt as int,
        ),
        final(body).velocity == old(body).velocity,
        final(body).wf(),
{
    body.position.x = moved_exec(body.position.x, body.velocity.horizontal, dt);
    body.position.y = moved_exec(body.position.y, body.velocity.vertical, dt);
}

/// One axis of the integration stage, executable.
fn moved_exec(p: i64, v: i64, dt: i64) -> (r: i64)
    requires
        in_coord_range(p as int),
        in_coord_range(v as int),
        dt >= 0,
    ensures
        r as int == moved(p as int, v as int, dt as int),
{
    let ghost vi = v as int;
    let ghost di = dt as int;
    let ghost lim = COORD_LIMIT as int;
    let ghost m = i64::MAX as int;
    proof {
        assert(-(32 * lim * m) <= 32 * vi * di <= 32 * lim * m) by (nonlinear_arith)
            requires
                -lim <= vi <= lim,
                0 <= di <= m,
                0 <= lim,
                0 <= m,
        ;
    }
    let scaled: i128 = (SPEED_MULTIPLIER as i128) * (v as i128) * (dt as i128);
    proof {
        lemma_trunc_div_bounded(scaled as int, TICKS_PER_SECOND as int, 32 * lim * m);
    }
    let delta: i128 = div_toward_zero(scaled, TICKS_PER_SECOND as i128);
    saturate((p as i128) + delta)
}

/// Gravity: take `GRAVITY_PER_TICK * dt` off the vertical velocity,
/// unconditionally, every frame; nothing else changes.
pub fn gravity(body: &mut Body, dt: i64)
    requires
        old(body).wf(),
        dt >= 0,
    ensures
        final(body).velocity.vertical as int == after_gravity(
            old(body).velocity.vertical as int,
            dt as int,
        ),
        final(body).velocity.horizontal == old(body).velocity.horizontal,
        final(body).position == old(body).position,
        final(body).wf(),
{
    let drop: i128 = (GRAVITY_PER_TICK as i128) * (dt as i128);
    body.velocity.vertical = saturate((body.velocity.vertical as i128) - drop);
}

/// Elastic wall response: on each axis whose position (the pre-clamp
/// candidate) lies outside the bounds, flip the velocity and keep 4/5 of
/// its magnitude; the position is untouched.
pub fn wall_rebound(body: &mut Body, bounds: &Bounds)
    requires
        old(body).wf(),
        bounds.wf(),
    ensures
        final(body).position == old(body).position,
        final(body).velocity.horizontal as int == (if old(body).position.x < bounds.x_min
            || old(body).position.x > bounds.x_max {
            rebounded(old(body).velocity.horizontal as int)
        } else {
            old(body).velocity.horizontal as int
        }),
        final(body).velocity.vertical as int == (if old(body).position.y < bounds.y_min
            || old(body).position.y > bounds.y_max {
            rebounded(old(body).velocity.vertical as int)
        } else {
            old(body).velocity.vertical as int
        }),
        final(body).wf(),
{
    if body.position.x < bounds.x_min || body.position.x > bounds.x_max {
        body.velocity.horizontal = rebound_exec(body.velocity.horizontal);
    }
    if body.position.y < bounds.y_min || body.position.y > bounds.y_max {
        body.velocity.vertical = rebound_exec(body.velocity.vertical);
    }
}

/// One axis of the elastic rebound, executable.
fn rebound_exec(v: i64) -> (r: i64)
    requires
        in_coord_range(v as int),
    ensures
        r as int == rebounded(v as int),
        in_coord_range(r as int),
{
    let q: i128 = div_toward_zero((ELASTICITY_NUM as i128) * (v as i128), ELASTICITY_DEN as i128);
    proof {
        lemma_trunc_div_bounded(ELASTICITY_NUM * (v as int), ELASTICITY_DEN as int, COORD_LIMIT * 4);
    }
    (-q) as i64
}

/// Stop-dead wall response: on each axis whose position (the pre-clamp
/// candidate) lies outside the bounds, zero the velocity; the position is
/// untouched.
pub fn wall_stop(body: &mut Body, bounds: &Bounds)
    requires
        old(body).wf(),
        bounds.wf(),
    ensures
        final(body).position == old(body).position,
        final(body).velocity.horizontal == (if old(body).position.x < bounds.x_min
            || old(body).position.x > bounds.x_max {
            0i64
        } else {
            old(body).velocity.horizontal
        }),
        final(body).velocity.vertical == (if old(body).position.y < bounds.y_min
            || old(body).position.y > bounds.y_max {
            0i64
        } else {
            old(body).velocity.vertical
        }),
        final(body).wf(),
{
    if body.position.x < bounds.x_min || body.position.x > bounds.x_max {
        body.velocity.horizontal = 0;
    }
    if body.position.y < bounds.y_min || body.position.y > bounds.y_max {
        body.velocity.vertical = 0;
    }
}

/// Positional clamp, the last stage of every frame: pull each axis of the
/// position into the bounds independently; the velocity is untouched.
/// Afterwards the body lies inside the bounds.
pub fn confine_circle_movement(body: &mut Body, bounds: &Bounds)
    requires
        old(body).wf(),
        bounds.wf(),
    ensures
        final(body).position.x as int == clamped(
            old(body).position.x as int,
            bounds.x_min as int,
            bounds.x_max as int,
        ),
        final(body).position.y as int == clamped(
            old(body).position.y as int,
            bounds.y_min as int,
            bounds.y_max as int,
        ),
        final(body).velocity == old(body).velocity,
        bounds.contains(final(body).position),
        final(body).wf(),
{
    if body.position.x < bounds.x_min {
        body.position.x = bounds.x_min;
    } else if body.position.x > bounds.x_max {
        body.position.x = bounds.x_max;
    }
    if body.position.y < bounds.y_min {
        body.position.y = bounds.y_min;
    } else if body.position.y > bounds.y_max {
        body.position.y = bounds.y_max;
    }
}

/// Cursor impulse: a click at `click` adds 1/100 of the displacement from
/// the body to the click point to the velocity, per axis; the position is
/// untouched. The caller fires this once per pointer-press edge.
pub fn cursor_force(body: &mut Body, click: Position)
    requires
        old(body).wf(),
        click.wf(),
    ensures
        final(body).position == old(body).position,
        final(body).velocity.horizontal as int == saturated(
            old(body).velocity.horizontal + impulse_delta(click.x - old(body).position.x),
        ),
        final(body).velocity.vertical as int == saturated(
            old(body).velocity.vertical + impulse_delta(click.y - old(body).position.y),
        ),
        final(body).wf(),
{
    let x_diff: i128 = (click.x as i128) - (body.position.x as i128);
    let y_diff: i128 = (click.y as i128) - (body.position.y as i128);
    let dvx: i128 = div_toward_zero(x_diff, CURSOR_FORCE_DEN as i128);
    let dvy: i128 = div_toward_zero(y_diff, CURSOR_FORCE_DEN as i128);
    body.velocity.horizontal = saturate((body.velocity.horizontal as i128) + dvx);
    body.velocity.vertical = saturate((body.velocity.vertical as i128) + dvy);
}

/// A click's window coordinates turned into world coordinates under the
/// centered-origin convention: the window's top-left corner is at
/// `(-width / 2, -height / 2)`.
pub fn click_world_position(cursor_x: i64, cursor_y: i64, width: i64, height: i64) -> (p: Position)
    requires
        0 <= width <= 2 * COORD_LIMIT,
        0 <= height <= 2 * COORD_LIMIT,
        0 <= cursor_x <= width,
        0 <= cursor_y <= height,
    ensures
        p.x == cursor_x - width / 2,
        p.y == cursor_y - height / 2,
        p.wf(),
{
    Position { x: cursor_x - width / 2, y: cursor_y - height / 2 }
}

/// A whole physics step, the four stages in their fixed order: integrate,
/// gravity, wall response under the configured policy, clamp. The wall
/// response reads the pre-clamp candidate position, and on the vertical
/// axis it acts on the velocity gravity has already changed. Afterwards
/// the body lies inside the bounds.
pub fn physics_step(body: &mut Body, bounds: &Bounds, dt: i64, policy: WallPolicy)
    requires
        old(body).wf(),
        bounds.wf(),
        dt >= 0,
    ensures
        ({
            let pv = stepped_axis(
                old(body).position.x as int,
                old(body).velocity.horizontal as int,
                old(body).velocity.horizontal as int,
                bounds.x_min as int,
                bounds.x_max as int,
                dt as int,
                policy,
            );
            final(body).position.x == pv.0 && final(body).velocity.horizontal == pv.1
        }),
        ({
            let pv = stepped_axis(
                old(body).position.y as int,
                old(body).velocity.vertical as int,
                after_gravity(old(body).velocity.vertical as int, dt as int),
                bounds.y_min as int,
                bounds.y_max as int,
                dt as int,
                policy,
            );
            final(body).position.y == pv.0 && final(body).velocity.vertical == pv.1
        }),
        bounds.contains(final(body).position),
        final(body).wf(),
{
    circle_movement(body, dt);
    gravity(body, dt);
    match policy {
        WallPolicy::Stop => wall_stop(body, bounds),
        WallPolicy::Rebound => wall_rebound(body, bounds),
    }
    confine_circle_movement(body, bounds);
}

/// One whole frame: the click's impulse, if the frame carries one, then the
/// physics step. The impulse reads the body's position at the start of the
/// frame, as the frame's inputs were sampled there.
pub fn advance_frame(body: &mut Body, bounds: &Bounds, ctx: &FrameContext, policy: WallPolicy)
    requires
        old(body).wf(),
        bounds.wf(),
        ctx.wf(),
    ensures
        ({
            let vh0 = match ctx.click {
                Some(c) => saturated(
                    old(body).velocity.horizontal + impulse_delta(c.x - old(body).position.x),
                ),
                None => old(body).velocity.horizontal as int,
            };
            let pv = stepped_axis(
                old(body).position.x as int,
                vh0,
                vh0,
                bounds.x_min as int,
                bounds.x_max as int,
                ctx.dt as int,
                policy,
            );
            final(body).position.x == pv.0 && final(body).velocity.horizontal == pv.1
        }),
        ({
            let vv0 = match ctx.click {
                Some(c) => saturated(
                    old(body).velocity.vertical + impulse_delta(c.y - old(body).position.y),
                ),
                None => old(body).velocity.vertical as int,
            };
            let pv = stepped_axis(
                old(body).position.y as int,
                vv0,
                after_gravity(vv0, ctx.dt as int),
                bounds.y_min as int,
                bounds.y_max as int,
                ctx.dt as int,
                policy,
            );
            final(body).position.y == pv.0 && final(body).velocity.vertical == pv.1
        }),
        bounds.contains(final(body).position),
        final(body).wf(),
{
    if let Some(click) = ctx.click {
        cursor_force(body, click);
    }
    physics_step(body, bounds, ctx.dt, policy);
}

} // verus!
