//! The renderer state: the scene's vertices, the camera pose, and the basis
//! vectors the camera derives from its yaw angle.
//!
//! The camera has a single rotational degree of freedom (yaw about the world
//! vertical), so its basis never pitches or rolls: `forward` and `right` stay
//! horizontal and `up` is the world up.

use vstd::prelude::*;
use crate::angle::{cos_millideg, sin_millideg, cos_fp, sin_fp, lemma_full_turn, MILLIDEG_TURN};
use crate::fixed::FP_ONE;
use crate::vector3::{in_coord_bounds, Vector3};

verus! {

/// Largest view-plane distance the pipeline accepts, in fixed-point steps
/// (one thousand world units).
pub const DIST_LIMIT: i64 = 1_000_000_000;

/// Scene and camera state for one rendering session.
pub struct Renderer {
    /// World-space scene points, in fixed-point steps.
    pub vertices: Vec<Vector3>,
    /// World-space camera position, in fixed-point steps.
    pub camera_pos: Vector3,
    /// Distance from the camera to the view plane, in fixed-point steps;
    /// must stay positive for the perspective divide to be meaningful.
    pub projection_plane_distance: i64,
    /// Camera yaw in millidegrees.
    pub camera_angle: i64,
}

impl Renderer {
    /// The inputs under which the pipeline's arithmetic is exact: every
    /// coordinate within [`crate::vector3::COORD_LIMIT`] and a positive,
    /// bounded view-plane distance.
    pub open spec fn wf(&self) -> bool {
        &&& forall|i: int|
            0 <= i < self.vertices@.len() ==> in_coord_bounds(#[trigger] self.vertices@[i])
        &&& in_coord_bounds(self.camera_pos)
        &&& 0 < self.projection_plane_distance <= DIST_LIMIT
    }

    /// The camera's forward direction, `(sin yaw, 0, cos yaw)` in fixed
    /// point: at yaw `0` the camera looks along positive `z`.
    pub fn get_cam_forward(&self) -> (r: Vector3)
        ensures
            r.x == sin_millideg(self.camera_angle as int),
            r.y == 0,
            r.z == cos_millideg(self.camera_angle as int),
            -FP_ONE <= r.x <= FP_ONE,
            -FP_ONE <= r.z <= FP_ONE,
    {
        Vector3::new(sin_fp(self.camera_angle), 0, cos_fp(self.camera_angle))
    }

    /// The camera's right direction, `(cos yaw, 0, -sin yaw)` in fixed
    /// point, a quarter turn from `forward` in the horizontal plane.
    pub fn get_cam_right(&self) -> (r: Vector3)
        ensures
            r.x == cos_millideg(self.camera_angle as int),
            r.y == 0,
            r.z == -sin_millideg(self.camera_angle as int),
            -FP_ONE <= r.x <= FP_ONE,
            -FP_ONE <= r.z <= FP_ONE,
    {
        let s = sin_fp(self.camera_angle);
        Vector3::new(cos_fp(self.camera_angle), 0, -s)
    }

    /// Turning the camera by exactly one full turn restores its basis: two
    /// renderers whose yaw differs by a whole turn share the sine and cosine
    /// their [`Renderer::get_cam_forward`] and [`Renderer::get_cam_right`]
    /// results are built from, so both derive identical forward and right
    /// vectors — here exactly, not merely within a tolerance.
    pub proof fn lemma_full_turn_same_basis(a: Renderer, b: Renderer)
        requires
            b.camera_angle as int == a.camera_angle as int + MILLIDEG_TURN,
        ensures
            sin_millideg(b.camera_angle as int) == sin_millideg(a.camera_angle as int),
            cos_millideg(b.camera_angle as int) == cos_millideg(a.camera_angle as int),
    {
        lemma_full_turn(a.camera_angle as int);
    }

    /// The camera's up direction: always the world up, `(0, 1, 0)` in world
    /// units.
    pub fn get_cam_up(&self) -> (r: Vector3)
        ensures
            r.x == 0,
            r.y == FP_ONE,
            r.z == 0,
    {
        Vector3::up()
    }
}

} // verus!
