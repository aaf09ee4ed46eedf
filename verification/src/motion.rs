//! Input-to-motion mapping: held direction keys and the elapsed frame time
//! become a camera translation, a yaw delta, and a view-distance nudge.
//!
//! The movement basis is the camera's own, with one empirical correction:
//! the forward vector's x component and the right vector's z component are
//! sign-inverted before use. This most likely compensates a handedness
//! mismatch between the projection basis and the movement basis; it is kept
//! as is, because the controls only feel right with it.

use vstd::prelude::*;
use crate::angle::{cos_millideg, sin_millideg};
use crate::fixed::{
    abs_int, lemma_scaled_tight_bound, lemma_scaled_unit, scale_fp, scaled, FP_ONE,
};
use crate::renderer::Renderer;
use crate::vector3::{in_coord_bounds, Vector3};

verus! {

/// Linear speed while a movement key is held, in fixed-point units per
/// second (ten world units per second).
pub const MOVE_SPEED: i64 = 10_000_000;

/// Angular speed while a turn key is held, in millidegrees per second
/// (one hundred degrees per second).
pub const TURN_SPEED: i64 = 100_000;

/// View-plane-distance nudge per processed frame while a zoom key is held,
/// in fixed-point units (one hundredth of a unit).
pub const ZOOM_STEP: i64 = 10_000;

/// Longest frame time the motion step accepts, in fixed-point seconds
/// (a thousand seconds — far beyond any real frame).
pub const FRAME_TIME_LIMIT: i64 = 1_000_000_000;

/// Yaw and view-distance magnitude within which one motion step cannot
/// overflow.
pub const MOTION_STATE_LIMIT: i64 = 1_000_000_000_000_000_000;

/// Held state of the ten logical input directions, one flag each.
#[derive(Clone, Copy, Debug)]
pub struct InputState {
    pub strafe_right: bool,
    pub strafe_left: bool,
    pub move_forward: bool,
    pub move_back: bool,
    pub rise: bool,
    pub fall: bool,
    pub turn_left: bool,
    pub turn_right: bool,
    pub zoom_in: bool,
    pub zoom_out: bool,
}

/// The signed increment a pair of opposing held keys selects: `inc` when the
/// increasing key is held, `-inc` when (only) the decreasing key is held,
/// zero otherwise.
pub open spec fn inc_spec(held_inc: bool, held_dec: bool, increment: int) -> int {
    if held_inc {
        increment
    } else if held_dec {
        -increment
    } else {
        0
    }
}

/// Picks the signed increment for a pair of opposing keys; the increasing
/// key wins when both are held.
pub fn inc(held_inc: bool, held_dec: bool, increment: i64) -> (r: i64)
    requires
        increment > i64::MIN,
    ensures
        r == inc_spec(held_inc, held_dec, increment as int),
{
    if held_inc {
        increment
    } else if held_dec {
        -increment
    } else {
        0
    }
}

/// The translation one motion step adds to the camera position: each axis is
/// its (corrected) basis vector, scaled by the selected speed and then by
/// the frame time, all in truncated fixed point.
pub open spec fn motion_delta(angle: int, input: InputState, ft: int) -> (int, int, int) {
    let s = sin_millideg(angle);
    let c = cos_millideg(angle);
    let ir = inc_spec(input.strafe_right, input.strafe_left, MOVE_SPEED as int);
    let ifw = inc_spec(input.move_forward, input.move_back, MOVE_SPEED as int);
    let iu = inc_spec(input.rise, input.fall, MOVE_SPEED as int);
    (
        scaled(scaled(c, ir), ft) + scaled(scaled(-s, ifw), ft),
        scaled(iu, ft),
        scaled(scaled(s, ir), ft) + scaled(scaled(c, ifw), ft),
    )
}

/// The yaw change one motion step adds, in millidegrees.
pub open spec fn yaw_delta(input: InputState, ft: int) -> int {
    scaled(inc_spec(input.turn_left, input.turn_right, TURN_SPEED as int), ft)
}

/// The view-distance change one motion step adds (independent of the frame
/// time).
pub open spec fn zoom_delta(input: InputState) -> int {
    inc_spec(input.zoom_in, input.zoom_out, ZOOM_STEP as int)
}

/// One movement term: basis vector `v` scaled by the selected speed, then by
/// the frame time.
fn motion_term(v: Vector3, speed: i64, ft: i64) -> (r: Vector3)
    requires
        abs_int(v.x as int) <= FP_ONE,
        abs_int(v.y as int) <= FP_ONE,
        abs_int(v.z as int) <= FP_ONE,
        abs_int(speed as int) <= MOVE_SPEED,
        0 <= ft <= FRAME_TIME_LIMIT,
    ensures
        r.x == scaled(scaled(v.x as int, speed as int), ft as int),
        r.y == scaled(scaled(v.y as int, speed as int), ft as int),
        r.z == scaled(scaled(v.z as int, speed as int), ft as int),
        abs_int(r.x as int) <= 10_000_000_000,
        abs_int(r.y as int) <= 10_000_000_000,
        abs_int(r.z as int) <= 10_000_000_000,
{
    proof {
        lemma_scaled_tight_bound(v.x as int, speed as int, FP_ONE as int, MOVE_SPEED as int);
        lemma_scaled_tight_bound(v.y as int, speed as int, FP_ONE as int, MOVE_SPEED as int);
        lemma_scaled_tight_bound(v.z as int, speed as int, FP_ONE as int, MOVE_SPEED as int);
    }
    let scaled_v = v.mul(speed);
    proof {
        lemma_scaled_tight_bound(
            scaled_v.x as int,
            ft as int,
            MOVE_SPEED as int,
            FRAME_TIME_LIMIT as int,
        );
        lemma_scaled_tight_bound(
            scaled_v.y as int,
            ft as int,
            MOVE_SPEED as int,
            FRAME_TIME_LIMIT as int,
        );
        lemma_scaled_tight_bound(
            scaled_v.z as int,
            ft as int,
            MOVE_SPEED as int,
            FRAME_TIME_LIMIT as int,
        );
    }
    scaled_v.mul(ft)
}

impl Renderer {
    /// Applies one frame of held-key input to the camera: the position moves
    /// along the corrected strafe/forward/vertical axes by speed times frame
    /// time, the yaw turns at the angular speed, and the view-plane distance
    /// nudges by a fixed step. Motion is instantaneous: held keys give a
    /// constant velocity, released keys give none, and the scene's vertices
    /// are untouched.
    #[verifier::rlimit(60)]
    pub fn apply_input(&mut self, input: &InputState, frame_time: i64)
        requires
            in_coord_bounds(old(self).camera_pos),
            0 <= frame_time <= FRAME_TIME_LIMIT,
            -MOTION_STATE_LIMIT <= old(self).camera_angle <= MOTION_STATE_LIMIT,
            -MOTION_STATE_LIMIT <= old(self).projection_plane_distance <= MOTION_STATE_LIMIT,
        ensures
            ({
                let delta = motion_delta(old(self).camera_angle as int, *input, frame_time as int);
                &&& final(self).camera_pos.x == old(self).camera_pos.x + delta.0
                &&& final(self).camera_pos.y == old(self).camera_pos.y + delta.1
                &&& final(self).camera_pos.z == old(self).camera_pos.z + delta.2
            }),
            final(self).camera_angle == old(self).camera_angle + yaw_delta(
                *input,
                frame_time as int,
            ),
            final(self).projection_plane_distance == old(self).projection_plane_distance
                + zoom_delta(*input),
            final(self).vertices@ == old(self).vertices@,
    {
        let fwd_raw = self.get_cam_forward();
        let fwd = Vector3::new(-fwd_raw.x, fwd_raw.y, fwd_raw.z);
        let rgt_raw = self.get_cam_right();
        let rgt = Vector3::new(rgt_raw.x, rgt_raw.y, -rgt_raw.z);
        let up = self.get_cam_up();

        let ir = inc(input.strafe_right, input.strafe_left, MOVE_SPEED);
        let ifw = inc(input.move_forward, input.move_back, MOVE_SPEED);
        let iu = inc(input.rise, input.fall, MOVE_SPEED);

        let strafe = motion_term(rgt, ir, frame_time);
        let advance = motion_term(fwd, ifw, frame_time);
        let vertical = motion_term(up, iu, frame_time);
        let delta = strafe.add(advance).add(vertical);
        proof {
            crate::fixed::lemma_scaled_zero(ir as int);
            crate::fixed::lemma_scaled_zero(ifw as int);
            crate::fixed::lemma_scaled_zero(iu as int);
            crate::fixed::lemma_scaled_zero(frame_time as int);
            lemma_scaled_unit(iu as int);
        }
        self.camera_pos = self.camera_pos.add(delta);

        let turn = inc(input.turn_left, input.turn_right, TURN_SPEED);
        proof {
            lemma_scaled_tight_bound(
                turn as int,
                frame_time as int,
                TURN_SPEED as int,
                FRAME_TIME_LIMIT as int,
            );
        }
        self.camera_angle = self.camera_angle + scale_fp(turn, frame_time);

        let zoom = inc(input.zoom_in, input.zoom_out, ZOOM_STEP);
        self.projection_plane_distance = self.projection_plane_distance + zoom;
    }
}

} // verus!
