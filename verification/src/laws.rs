//! The laws the per-frame update obeys, stated over the spec functions the
//! contracts in [`crate::step`] use and proved once for all inputs.

use vstd::prelude::*;
use vstd::arithmetic::div_mod::lemma_div_by_multiple;
use vstd::arithmetic::div_mod::lemma_div_is_ordered;
use vstd::arithmetic::div_mod::lemma_div_pos_is_pos;
use vstd::arithmetic::div_mod::lemma_fundamental_div_mod;
use vstd::arithmetic::div_mod::lemma_mod_bound;
use vstd::math::abs;
use crate::body::WallPolicy;
use crate::fixed::in_coord_range;
use crate::fixed::saturated;
use crate::fixed::trunc_div;
use crate::fixed::COORD_LIMIT;
use crate::fixed::SCALE;
use crate::fixed::TICKS_PER_SECOND;
use crate::step::after_gravity;
use crate::step::clamped;
use crate::step::impulse_delta;
use crate::step::moved;
use crate::step::rebounded;
use crate::step::stepped_axis;
use crate::step::CURSOR_FORCE_DEN;
use crate::step::ELASTICITY_DEN;
use crate::step::ELASTICITY_NUM;
use crate::step::GRAVITY_PER_TICK;
use crate::step::SPEED_MULTIPLIER;

verus! {

/// With zero velocity, integration leaves the position alone, for every
/// time delta.
pub proof fn lemma_zero_velocity_position_unchanged(p: int, dt: int)
    requires
        in_coord_range(p),
        dt >= 0,
    ensures
        moved(p, 0, dt) == p,
{
    assert(SPEED_MULTIPLIER * 0 * dt == 0);
    assert(trunc_div(0, TICKS_PER_SECOND as int) == 0) by {
        lemma_div_pos_is_pos(0, TICKS_PER_SECOND as int);
        lemma_div_is_ordered(0, 0, TICKS_PER_SECOND as int);
    }
}

/// The per-tick gravity constant is exactly 9.81 world units per second
/// squared at the fixed-point scale: nothing was lost to rounding.
pub proof fn lemma_gravity_constant_exact()
    ensures
        100 * TICKS_PER_SECOND * GRAVITY_PER_TICK == 981 * SCALE,
{
}

/// Gravity takes exactly `GRAVITY_PER_TICK * dt` off the vertical velocity
/// — strictly decreasing it whenever time passed — as long as the result
/// stays above the saturation floor `-COORD_LIMIT`.
pub proof fn lemma_gravity_exact_drop(v: int, dt: int)
    requires
        in_coord_range(v),
        dt >= 1,
        -COORD_LIMIT <= v - GRAVITY_PER_TICK * dt,
    ensures
        after_gravity(v, dt) == v - GRAVITY_PER_TICK * dt,
        after_gravity(v, dt) < v,
{
}

/// Stop policy: a body resting on the right (or any) wall with outward
/// velocity has, after the next frame, velocity exactly zero on that axis
/// and position still at the wall. `p == hi` is the wall; the motion must
/// come to at least one stored unit (`SPEED_MULTIPLIER * v * dt` of at
/// least one tick's worth), the fixed-point grain of "moving at all".
pub proof fn lemma_wall_stop_halts_at_wall(p: int, v: int, lo: int, hi: int, dt: int)
    requires
        -COORD_LIMIT <= lo <= hi < COORD_LIMIT,
        p == hi,
        v >= 1,
        dt >= 1,
        SPEED_MULTIPLIER * v * dt >= TICKS_PER_SECOND,
    ensures
        stepped_axis(p, v, v, lo, hi, dt, WallPolicy::Stop).0 == hi,
        stepped_axis(p, v, v, lo, hi, dt, WallPolicy::Stop).1 == 0,
{
    let a = SPEED_MULTIPLIER * v * dt;
    assert(trunc_div(a, TICKS_PER_SECOND as int) >= 1) by {
        lemma_div_is_ordered(TICKS_PER_SECOND as int, a, TICKS_PER_SECOND as int);
    }
}

/// A body at rest inside the bounds stays exactly where it is, frame after
/// frame, under either policy: no movement, no wall hit, velocity still
/// zero — until an external force is applied.
pub proof fn lemma_at_rest_stays(p: int, lo: int, hi: int, dt: int, policy: WallPolicy)
    requires
        -COORD_LIMIT <= lo <= p <= hi <= COORD_LIMIT,
        dt >= 0,
    ensures
        stepped_axis(p, 0, 0, lo, hi, dt, policy).0 == p,
        stepped_axis(p, 0, 0, lo, hi, dt, policy).1 == 0,
{
    lemma_zero_velocity_position_unchanged(p, dt);
}

/// Where the stored velocity is a multiple of the elasticity denominator,
/// the rebound is exact: the velocity after is exactly `-4/5` of the
/// velocity before (elasticity 0.80, sign flipped).
pub proof fn lemma_rebound_exact(v: int)
    requires
        v % (ELASTICITY_DEN as int) == 0,
    ensures
        ELASTICITY_DEN * rebounded(v) == -(ELASTICITY_NUM * v),
{
    let k = v / (ELASTICITY_DEN as int);
    lemma_fundamental_div_mod(v, ELASTICITY_DEN as int);
    if k >= 0 {
        lemma_div_by_multiple(ELASTICITY_NUM * k, ELASTICITY_DEN as int);
        assert(ELASTICITY_NUM * v == (ELASTICITY_NUM * k) * (ELASTICITY_DEN as int)) by {
            assert(v == (ELASTICITY_DEN as int) * k);
        }
    } else {
        lemma_div_by_multiple(-(ELASTICITY_NUM * k), ELASTICITY_DEN as int);
        assert(-(ELASTICITY_NUM * v) == (-(ELASTICITY_NUM * k)) * (ELASTICITY_DEN as int)) by {
            assert(v == (ELASTICITY_DEN as int) * k);
        }
    }
}

/// A rebound never gains energy: the speed after is at most 4/5 of the
/// speed before (`5 * |after| <= 4 * |before|`), so repeated collisions
/// decay the speed geometrically toward zero; and the sign flips (or the
/// velocity dies at zero).
pub proof fn lemma_rebound_no_energy_gain(v: int)
    ensures
        ELASTICITY_DEN * abs(rebounded(v)) <= ELASTICITY_NUM * abs(v),
        abs(rebounded(v)) <= abs(v),
        v >= 0 ==> rebounded(v) <= 0,
        v <= 0 ==> rebounded(v) >= 0,
{
    if v >= 0 {
        lemma_fundamental_div_mod(ELASTICITY_NUM * v, ELASTICITY_DEN as int);
        lemma_div_pos_is_pos(ELASTICITY_NUM * v, ELASTICITY_DEN as int);
        lemma_mod_bound(ELASTICITY_NUM * v, ELASTICITY_DEN as int);
    } else {
        lemma_fundamental_div_mod(-(ELASTICITY_NUM * v), ELASTICITY_DEN as int);
        lemma_div_pos_is_pos(-(ELASTICITY_NUM * v), ELASTICITY_DEN as int);
        lemma_mod_bound(-(ELASTICITY_NUM * v), ELASTICITY_DEN as int);
    }
}

/// Neither wall policy ever gains speed: after a whole step of one axis
/// the velocity's magnitude is at most what it was when the wall response
/// ran — unchanged away from the walls, zeroed or decayed at them. With
/// the clamp's guarantee that the position ends inside the bounds, the
/// body settles: its speed can only decay while it sits at a wall.
pub proof fn lemma_step_never_gains_speed(
    p: int,
    v_move: int,
    v_hit: int,
    lo: int,
    hi: int,
    dt: int,
    policy: WallPolicy,
)
    ensures
        abs(stepped_axis(p, v_move, v_hit, lo, hi, dt, policy).1) <= abs(v_hit),
{
    lemma_rebound_no_energy_gain(v_hit);
}

/// The positional clamp is idempotent: clamping a clamped value changes
/// nothing, and a position already inside the bounds is left alone.
pub proof fn lemma_clamp_idempotent(x: int, lo: int, hi: int)
    requires
        lo <= hi,
    ensures
        clamped(clamped(x, lo, hi), lo, hi) == clamped(x, lo, hi),
        lo <= x <= hi ==> clamped(x, lo, hi) == x,
{
}

/// A click at the body's exact position changes the velocity not at all.
pub proof fn lemma_click_at_body_no_change(v: int)
    requires
        in_coord_range(v),
    ensures
        saturated(v + impulse_delta(0)) == v,
{
    assert(trunc_div(0, CURSOR_FORCE_DEN as int) == 0) by {
        lemma_div_pos_is_pos(0, CURSOR_FORCE_DEN as int);
        lemma_div_is_ordered(0, 0, CURSOR_FORCE_DEN as int);
    }
}

/// Where the displacement is a multiple of the force denominator, the
/// impulse is exact: a click offset by `d` adds exactly `d / 100` to the
/// velocity (force scale 0.01).
pub proof fn lemma_impulse_exact(d: int)
    requires
        d % (CURSOR_FORCE_DEN as int) == 0,
    ensures
        CURSOR_FORCE_DEN * impulse_delta(d) == d,
{
    let k = d / (CURSOR_FORCE_DEN as int);
    lemma_fundamental_div_mod(d, CURSOR_FORCE_DEN as int);
    if k >= 0 {
        lemma_div_by_multiple(k, CURSOR_FORCE_DEN as int);
        assert(d == k * (CURSOR_FORCE_DEN as int)) by {
            assert(d == (CURSOR_FORCE_DEN as int) * k);
        }
    } else {
        lemma_div_by_multiple(-k, CURSOR_FORCE_DEN as int);
        assert(-d == (-k) * (CURSOR_FORCE_DEN as int)) by {
            assert(d == (CURSOR_FORCE_DEN as int) * k);
        }
    }
}

} // verus!
