//! The laws the camera obeys, stated over the spec functions its contracts
//! use and proved once for all inputs.

use crate::camera::{axis_moved, clamp_pitch, delta, Controls, PITCH_LIMIT};
use crate::fixed::{fx_mul_spec, FX_ONE};
use vstd::arithmetic::div_mod::{lemma_div_multiples_vanish, lemma_fundamental_div_mod};
use vstd::prelude::*;

verus! {

/// Pitch is always clamped: whatever pitch a camera held and whatever look
/// delta an update folds in, the pitch the update leaves behind lies within
/// `[-PITCH_LIMIT, PITCH_LIMIT]`.
pub proof fn lemma_pitch_clamped(p: int, d: int)
    ensures
        -(PITCH_LIMIT as int) <= clamp_pitch(p + d) <= PITCH_LIMIT as int,
{
}

/// Pitch after a sequence of look phases that starts from `p0` and folds in
/// the deltas of `ds`, oldest first.
pub open spec fn pitch_after(p0: int, ds: Seq<int>) -> int
    decreases ds.len(),
{
    if ds.len() == 0 {
        p0
    } else {
        clamp_pitch(pitch_after(p0, ds.drop_last()) + ds.last())
    }
}

/// For any sequence of updates, after each update the pitch lies within the
/// clamp interval, whatever pitch the camera started from.
pub proof fn lemma_pitch_always_clamped(p0: int, ds: Seq<int>)
    requires
        ds.len() > 0,
    ensures
        -(PITCH_LIMIT as int) <= pitch_after(p0, ds) <= PITCH_LIMIT as int,
{
}

/// An update whose input deltas are all zero changes nothing: the yaw and
/// position come back unchanged for any camera, and the pitch comes back
/// unchanged whenever it already lay within the clamp interval. The movement
/// part holds for any speed, so in particular for the all-zero controls.
pub proof fn lemma_zero_input_is_identity(
    y: int,
    p: int,
    q: int,
    dir: int,
    rt: int,
    up: int,
    c: Controls,
)
    requires
        c.look_right_left == 0,
        c.look_up_down == 0,
        c.forwards_backwards == 0,
        c.right_left == 0,
        c.up_down == 0,
        -(PITCH_LIMIT as int) <= p <= PITCH_LIMIT as int,
    ensures
        y + c.look_right_left == y,
        clamp_pitch(p + c.look_up_down) == p,
        axis_moved(q, dir, rt, up, c) == q,
{
    assert(dir * (c.forwards_backwards as int) == 0);
    assert(rt * (c.right_left as int) == 0);
    assert(up * (c.up_down as int) == 0);
    assert(fx_mul_spec(0, c.speed as int) == 0);
}

/// Applying look deltas `a` then `b` in two updates turns the yaw exactly as
/// one update with the look delta `a + b` does; the clamped pitch has no such
/// composition, so only the yaw is claimed.
pub proof fn lemma_look_right_left_composes(y: int, a: int, b: int)
    ensures
        (y + a) + b == y + (a + b),
{
}

/// The fixed-point scalings of one movement contribution lose nothing to
/// rounding: the scale divides the product of the direction component and
/// the movement delta, and again the product of that quotient and the speed.
pub open spec fn exact_delta(d: int, amount: int, speed: int) -> bool {
    &&& (d * amount) % (FX_ONE as int) == 0
    &&& (((d * amount) / (FX_ONE as int)) * speed) % (FX_ONE as int) == 0
}

/// Where the scale divides the product, the fixed-point product is the exact
/// quotient, whatever the signs.
proof fn lemma_fx_mul_exact(a: int, b: int)
    requires
        (a * b) % (FX_ONE as int) == 0,
    ensures
        fx_mul_spec(a, b) == (a * b) / (FX_ONE as int),
{
    let f = FX_ONE as int;
    let q = (a * b) / f;
    lemma_fundamental_div_mod(a * b, f);
    if a * b < 0 {
        assert(-(a * b) == f * (-q));
        lemma_div_multiples_vanish(-q, f);
    }
}

/// Movement linearity in the speed, one contribution at a time: where the
/// fixed-point products are exact, doubling the speed doubles the
/// contribution.
pub proof fn lemma_delta_double_speed(d: int, amount: int, s: int)
    requires
        exact_delta(d, amount, s),
    ensures
        delta(d, amount, 2 * s) == 2 * delta(d, amount, s),
{
    let f = FX_ONE as int;
    let e = (d * amount) / f;
    let m = (e * s) / f;
    lemma_fx_mul_exact(d, amount);
    lemma_fx_mul_exact(e, s);
    lemma_fundamental_div_mod(e * s, f);
    assert(e * (2 * s) == f * (2 * m)) by (nonlinear_arith)
        requires
            e * s == f * m,
    ;
    lemma_div_multiples_vanish(2 * m, f);
    assert((e * (2 * s)) % f == 0) by {
        vstd::arithmetic::div_mod::lemma_mod_multiples_basic(2 * m, f);
    }
    lemma_fx_mul_exact(e, 2 * s);
}

/// Movement linearity in the movement delta, one contribution at a time:
/// where the fixed-point products are exact, doubling the delta doubles the
/// contribution.
pub proof fn lemma_delta_double_amount(d: int, amount: int, s: int)
    requires
        exact_delta(d, amount, s),
    ensures
        delta(d, 2 * amount, s) == 2 * delta(d, amount, s),
{
    let f = FX_ONE as int;
    let e = (d * amount) / f;
    let m = (e * s) / f;
    lemma_fx_mul_exact(d, amount);
    lemma_fx_mul_exact(e, s);
    lemma_fundamental_div_mod(d * amount, f);
    lemma_fundamental_div_mod(e * s, f);
    assert(d * (2 * amount) == f * (2 * e)) by (nonlinear_arith)
        requires
            d * amount == f * e,
    ;
    assert((2 * e) * s == f * (2 * m)) by (nonlinear_arith)
        requires
            e * s == f * m,
    ;
    lemma_div_multiples_vanish(2 * e, f);
    lemma_div_multiples_vanish(2 * m, f);
    assert((d * (2 * amount)) % f == 0) by {
        vstd::arithmetic::div_mod::lemma_mod_multiples_basic(2 * e, f);
    }
    assert(((2 * e) * s) % f == 0) by {
        vstd::arithmetic::div_mod::lemma_mod_multiples_basic(2 * m, f);
    }
    lemma_fx_mul_exact(d, 2 * amount);
    lemma_fx_mul_exact(2 * e, s);
}

/// Movement linearity along a whole axis: with exact products, a movement
/// update whose controls differ only in a doubled speed moves the position
/// twice as far.
pub proof fn lemma_axis_linear_in_speed(
    p: int,
    dir: int,
    rt: int,
    up: int,
    c: Controls,
    c2: Controls,
)
    requires
        c2.forwards_backwards == c.forwards_backwards,
        c2.right_left == c.right_left,
        c2.up_down == c.up_down,
        c2.speed == 2 * c.speed,
        exact_delta(dir, c.forwards_backwards as int, c.speed as int),
        exact_delta(rt, c.right_left as int, c.speed as int),
        exact_delta(up, c.up_down as int, c.speed as int),
    ensures
        axis_moved(p, dir, rt, up, c2) - p == 2 * (axis_moved(p, dir, rt, up, c) - p),
{
    lemma_delta_double_speed(dir, c.forwards_backwards as int, c.speed as int);
    lemma_delta_double_speed(rt, c.right_left as int, c.speed as int);
    lemma_delta_double_speed(up, c.up_down as int, c.speed as int);
}

/// Movement linearity in the forward delta along a whole axis: with exact
/// products and no sideways or vertical movement, doubling
/// `forwards_backwards` moves the position twice as far.
pub proof fn lemma_axis_linear_in_forwards(
    p: int,
    dir: int,
    rt: int,
    up: int,
    c: Controls,
    c2: Controls,
)
    requires
        c2.forwards_backwards == 2 * c.forwards_backwards,
        c.right_left == 0,
        c.up_down == 0,
        c2.right_left == 0,
        c2.up_down == 0,
        c2.speed == c.speed,
        exact_delta(dir, c.forwards_backwards as int, c.speed as int),
    ensures
        axis_moved(p, dir, rt, up, c2) - p == 2 * (axis_moved(p, dir, rt, up, c) - p),
{
    lemma_delta_double_amount(dir, c.forwards_backwards as int, c.speed as int);
    assert(rt * (c.right_left as int) == 0);
    assert(up * (c.up_down as int) == 0);
    assert(fx_mul_spec(0, c.speed as int) == 0);
}

} // verus!
