//! The first-person camera: position, yaw and pitch, and the frame update.
//!
//! A frame update has two phases, because the look direction feeds back into
//! the movement: the angular deltas are folded into yaw and pitch first,
//! with pitch clamped away from the poles, and the movement deltas are then
//! integrated into the position along vectors derived from the updated
//! angles. Deriving those vectors takes trigonometry, which is the host's
//! work: it reads the coming angles off `peek_look`, evaluates the look
//! direction, its normalised horizontal projection (the plane direction) and
//! the horizontal right vector, and hands the latter two to `update`. The
//! phases are also callable one at a time, as `update_look` and
//! `update_move`.

use crate::fixed::{fits_i64, fx_mul, fx_mul_spec, FX_ONE};
use crate::vec3::Vec3;
use vstd::prelude::*;

verus! {

/// The pitch clamp bound: the fixed-point value of pi/2 - 0.005. Pitch is
/// kept in `[-PITCH_LIMIT, PITCH_LIMIT]` so the look direction never reaches
/// the poles, where the horizontal plane direction would degenerate.
pub const PITCH_LIMIT: i64 = 102616;

/// One frame's input deltas, in fixed-point units: movement along the
/// camera-relative axes, angular look deltas in fixed-point radians, and a
/// scalar speed multiplying every movement delta.
#[derive(Clone, Copy, Debug, PartialEq, Eq, Structural)]
pub struct Controls {
    pub forwards_backwards: i64,
    pub right_left: i64,
    pub up_down: i64,
    pub look_up_down: i64,
    pub look_right_left: i64,
    pub speed: i64,
}

/// The camera state: a world-space position and the yaw and pitch angles, in
/// fixed-point radians. Yaw accumulates without wrapping; pitch is clamped by
/// every update but is stored as given at construction.
pub struct FirstPersonCamera {
    pub position: Vec3,
    pub yaw: i64,
    pub pitch: i64,
}

/// Pitch after the hard clamp into `[-PITCH_LIMIT, PITCH_LIMIT]`.
pub open spec fn clamp_pitch(p: int) -> int {
    if p < -(PITCH_LIMIT as int) {
        -(PITCH_LIMIT as int)
    } else if p > PITCH_LIMIT as int {
        PITCH_LIMIT as int
    } else {
        p
    }
}

/// One movement contribution along one axis: the axis component of a
/// direction vector, scaled by a movement delta and then by the speed.
pub open spec fn delta(d: int, amount: int, speed: int) -> int {
    fx_mul_spec(fx_mul_spec(d, amount), speed)
}

/// Both fixed-point products of a movement contribution stay in range.
pub open spec fn delta_ok(d: int, amount: int, speed: int) -> bool {
    &&& fits_i64(fx_mul_spec(d, amount))
    &&& fits_i64(delta(d, amount, speed))
}

/// One axis of the position after a movement update: the old value plus the
/// contributions along the plane direction, the right vector and the world
/// up axis, each scaled by its movement delta and the speed.
pub open spec fn axis_moved(p: int, dir: int, rt: int, up: int, c: Controls) -> int {
    p + delta(dir, c.forwards_backwards as int, c.speed as int) + delta(
        rt,
        c.right_left as int,
        c.speed as int,
    ) + delta(up, c.up_down as int, c.speed as int)
}

/// Every product and every partial sum of one axis of a movement update
/// stays in range. The partial sums follow the order in which the three
/// contributions are added.
pub open spec fn axis_ok(p: int, dir: int, rt: int, up: int, c: Controls) -> bool {
    &&& delta_ok(dir, c.forwards_backwards as int, c.speed as int)
    &&& delta_ok(rt, c.right_left as int, c.speed as int)
    &&& delta_ok(up, c.up_down as int, c.speed as int)
    &&& fits_i64(p + delta(dir, c.forwards_backwards as int, c.speed as int))
    &&& fits_i64(
        p + delta(dir, c.forwards_backwards as int, c.speed as int) + delta(
            rt,
            c.right_left as int,
            c.speed as int,
        ),
    )
    &&& fits_i64(axis_moved(p, dir, rt, up, c))
}

/// The x component of the position after a movement update.
pub open spec fn moved_x(pos: Vec3, pd: Vec3, rt: Vec3, c: Controls) -> int {
    axis_moved(pos.x as int, pd.x as int, rt.x as int, 0, c)
}

/// The y component of the position after a movement update. The world up
/// axis contributes along y only, with unit component `FX_ONE`.
pub open spec fn moved_y(pos: Vec3, pd: Vec3, rt: Vec3, c: Controls) -> int {
    axis_moved(pos.y as int, pd.y as int, rt.y as int, FX_ONE as int, c)
}

/// The z component of the position after a movement update.
pub open spec fn moved_z(pos: Vec3, pd: Vec3, rt: Vec3, c: Controls) -> int {
    axis_moved(pos.z as int, pd.z as int, rt.z as int, 0, c)
}

/// All products and partial sums of a movement update stay in range.
pub open spec fn move_ok(pos: Vec3, pd: Vec3, rt: Vec3, c: Controls) -> bool {
    &&& axis_ok(pos.x as int, pd.x as int, rt.x as int, 0, c)
    &&& axis_ok(pos.y as int, pd.y as int, rt.y as int, FX_ONE as int, c)
    &&& axis_ok(pos.z as int, pd.z as int, rt.z as int, 0, c)
}

/// The look direction for given sines and cosines of yaw and pitch:
/// (cos(pitch)·sin(yaw), sin(pitch), cos(pitch)·cos(yaw)). The trigonometric
/// values themselves are the host's to evaluate; this fixes how they combine
/// into the direction vector.
pub fn direction_from_trig(sin_yaw: i64, cos_yaw: i64, sin_pitch: i64, cos_pitch: i64) -> (d: Vec3)
    requires
        fits_i64(fx_mul_spec(cos_pitch as int, sin_yaw as int)),
        fits_i64(fx_mul_spec(cos_pitch as int, cos_yaw as int)),
    ensures
        d.x == fx_mul_spec(cos_pitch as int, sin_yaw as int),
        d.y == sin_pitch,
        d.z == fx_mul_spec(cos_pitch as int, cos_yaw as int),
{
    Vec3::new(fx_mul(cos_pitch, sin_yaw), sin_pitch, fx_mul(cos_pitch, cos_yaw))
}

impl FirstPersonCamera {
    /// Builds a camera at a position with the given yaw and pitch angles.
    /// The angles are stored as given: in particular pitch is not clamped
    /// here, only by updates.
    pub fn new(position: Vec3, yaw: i64, pitch: i64) -> (c: Self)
        ensures
            c.position == position,
            c.yaw == yaw,
            c.pitch == pitch,
    {
        FirstPersonCamera { position, yaw, pitch }
    }

    /// The angles one frame's look deltas would produce, without changing
    /// the camera: exactly what `update` stores for the same deltas. The
    /// host evaluates its trigonometry at these angles before handing the
    /// movement vectors to `update`.
    pub fn peek_look(&self, look_right_left: i64, look_up_down: i64) -> (r: (i64, i64))
        requires
            fits_i64(self.yaw + look_right_left),
            fits_i64(self.pitch + look_up_down),
        ensures
            r.0 == self.yaw + look_right_left,
            r.1 == clamp_pitch(self.pitch + look_up_down),
    {
        let yaw = self.yaw + look_right_left;
        let pitch = self.pitch + look_up_down;
        let pitch = if pitch < -PITCH_LIMIT {
            -PITCH_LIMIT
        } else if pitch > PITCH_LIMIT {
            PITCH_LIMIT
        } else {
            pitch
        };
        (yaw, pitch)
    }

    /// One frame: folds the look deltas into the angles, then integrates
    /// the movement deltas into the position along `plane_direction`,
    /// `right` and the world up axis. The two vectors are the host's
    /// trigonometric evaluation at the angles `peek_look` returns for the
    /// same controls: the normalised horizontal projection of the look
    /// direction, and the horizontal vector a quarter turn to its right.
    pub fn update(&mut self, controls: &Controls, plane_direction: Vec3, right: Vec3)
        requires
            fits_i64(old(self).yaw + controls.look_right_left),
            fits_i64(old(self).pitch + controls.look_up_down),
            move_ok(old(self).position, plane_direction, right, *controls),
        ensures
            final(self).yaw == old(self).yaw + controls.look_right_left,
            final(self).pitch == clamp_pitch(old(self).pitch + controls.look_up_down),
            final(self).position.x == moved_x(old(self).position, plane_direction, right, *controls),
            final(self).position.y == moved_y(old(self).position, plane_direction, right, *controls),
            final(self).position.z == moved_z(old(self).position, plane_direction, right, *controls),
    {
        self.update_look(controls.look_right_left, controls.look_up_down);
        self.update_move(controls, plane_direction, right);
    }

    /// The look phase of a frame update: folds the angular deltas into yaw
    /// and pitch, then clamps pitch into `[-PITCH_LIMIT, PITCH_LIMIT]`. The
    /// position is untouched.
    pub fn update_look(&mut self, look_right_left: i64, look_up_down: i64)
        requires
            fits_i64(old(self).yaw + look_right_left),
            fits_i64(old(self).pitch + look_up_down),
        ensures
            final(self).yaw == old(self).yaw + look_right_left,
            final(self).pitch == clamp_pitch(old(self).pitch + look_up_down),
            final(self).position == old(self).position,
    {
        self.yaw = self.yaw + look_right_left;
        self.pitch = self.pitch + look_up_down;
        self.pitch = if self.pitch < -PITCH_LIMIT {
            -PITCH_LIMIT
        } else if self.pitch > PITCH_LIMIT {
            PITCH_LIMIT
        } else {
            self.pitch
        };
    }

    /// The movement phase of a frame update: adds to the position, in order,
    /// the plane-direction, right-vector and world-up contributions, each
    /// scaled by its movement delta and the speed. `plane_direction` and
    /// `right` are the host's trigonometric evaluation of the angles this
    /// camera holds after the look phase. The angles are untouched.
    pub fn update_move(&mut self, controls: &Controls, plane_direction: Vec3, right: Vec3)
        requires
            move_ok(old(self).position, plane_direction, right, *controls),
        ensures
            final(self).position.x == moved_x(old(self).position, plane_direction, right, *controls),
            final(self).position.y == moved_y(old(self).position, plane_direction, right, *controls),
            final(self).position.z == moved_z(old(self).position, plane_direction, right, *controls),
            final(self).yaw == old(self).yaw,
            final(self).pitch == old(self).pitch,
    {
        let up = Vec3::new(0, FX_ONE, 0);

        let fx = fx_mul(fx_mul(plane_direction.x, controls.forwards_backwards), controls.speed);
        let fy = fx_mul(fx_mul(plane_direction.y, controls.forwards_backwards), controls.speed);
        let fz = fx_mul(fx_mul(plane_direction.z, controls.forwards_backwards), controls.speed);
        self.position.x = self.position.x + fx;
        self.position.y = self.position.y + fy;
        self.position.z = self.position.z + fz;

        let rx = fx_mul(fx_mul(right.x, controls.right_left), controls.speed);
        let ry = fx_mul(fx_mul(right.y, controls.right_left), controls.speed);
        let rz = fx_mul(fx_mul(right.z, controls.right_left), controls.speed);
        self.position.x = self.position.x + rx;
        self.position.y = self.position.y + ry;
        self.position.z = self.position.z + rz;

        let ux = fx_mul(fx_mul(up.x, controls.up_down), controls.speed);
        let uy = fx_mul(fx_mul(up.y, controls.up_down), controls.speed);
        let uz = fx_mul(fx_mul(up.z, controls.up_down), controls.speed);
        self.position.x = self.position.x + ux;
        self.position.y = self.position.y + uy;
        self.position.z = self.position.z + uz;
    }

    /// The camera's position.
    pub fn get_position(&self) -> (p: Vec3)
        ensures
            p == self.position,
    {
        self.position
    }

    /// The camera's yaw angle, in fixed-point radians.
    pub fn yaw(&self) -> (y: i64)
        ensures
            y == self.yaw,
    {
        self.yaw
    }

    /// The camera's pitch angle, in fixed-point radians.
    pub fn pitch(&self) -> (p: i64)
        ensures
            p == self.pitch,
    {
        self.pitch
    }
}

} // verus!
