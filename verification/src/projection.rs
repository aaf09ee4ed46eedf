//! The projection pipeline: world-space points are re-expressed in the
//! camera's basis, tested against the near plane, perspective-divided onto
//! the view plane, and mapped to pixel coordinates.
//!
//! A point whose camera-space depth is not strictly positive is discarded:
//! the near-plane boundary `depth == 0` is rejected together with everything
//! behind the camera, so the perspective divide never sees a zero depth.

use vstd::prelude::*;
use crate::angle::{cos_millideg, sin_millideg};
use crate::fixed::{
    abs_int, div_trunc, div_tz, lemma_abs_mul_bound, lemma_div_tz_abs, lemma_div_tz_bounds,
    lemma_scaled_bound, lemma_scaled_unit, lemma_scaled_zero, scaled, FP_ONE,
};
use crate::renderer::Renderer;
use crate::vector3::{in_coord_bounds, Vector3, COORD_LIMIT};

verus! {

/// Fixed viewport scale: how many pixels one unit of normalized device
/// coordinates spans. Sets the apparent field of view.
pub const VIEW_SCALE: i64 = 500;

/// Every screen coordinate [`Renderer::project_vertices`] emits stays within
/// this magnitude; the bound follows from the coordinate, distance and
/// viewport limits and keeps the frame fill's pixel arithmetic in range.
pub const SCREEN_ABS_LIMIT: i128 = 2_100_000_000_000_000_000_000_000_000_000;

/// A world point relative to the camera position, componentwise.
pub open spec fn camera_space(p: Vector3, cam: Vector3) -> (int, int, int) {
    (p.x - cam.x, p.y - cam.y, p.z - cam.z)
}

/// The camera-space offset re-expressed in the camera's basis:
/// `right * cs_x + forward * cs_z + up * cs_y` with the yaw-only basis
/// `forward = (sin, 0, cos)`, `right = (cos, 0, -sin)`, `up = (0, 1, 0)`.
/// The first component is the rightward offset, the second the vertical
/// offset, the third the depth along `forward`.
pub open spec fn rotated_point(angle: int, cs_x: int, cs_y: int, cs_z: int) -> (int, int, int) {
    (
        scaled(cos_millideg(angle), cs_x) + scaled(sin_millideg(angle), cs_z),
        cs_y,
        scaled(-sin_millideg(angle), cs_x) + scaled(cos_millideg(angle), cs_z),
    )
}

/// The perspective divide: a rotated coordinate `r` at depth `z`, projected
/// onto the view plane at distance `d`, is `r / z * d` in fixed point.
pub open spec fn ndc_value(r: int, z: int, d: int) -> int {
    div_tz(r * d, z)
}

/// Viewport transform of a normalized device x: scale to pixels and shift to
/// the middle column of a `width`-pixel buffer.
pub open spec fn screen_x_value(ndc_x: int, width: int) -> int {
    ndc_x * VIEW_SCALE + width * FP_ONE / 2
}

/// Viewport transform of a normalized device y: the axis flips because
/// screen y grows downward while camera-space y grows upward.
pub open spec fn screen_y_value(ndc_y: int, height: int) -> int {
    -ndc_y * VIEW_SCALE + height * FP_ONE / 2
}

/// The whole pipeline for a single point: `Some` screen position in
/// fixed-point pixel coordinates, or `None` when the near-plane test
/// discards the point (camera-space depth `<= 0`).
pub open spec fn project_point(
    angle: int,
    cam: Vector3,
    p: Vector3,
    d: int,
    width: int,
    height: int,
) -> Option<(int, int)> {
    let cs = camera_space(p, cam);
    let rot = rotated_point(angle, cs.0, cs.1, cs.2);
    if rot.2 <= 0 {
        None
    } else {
        Some(
            (
                screen_x_value(ndc_value(rot.0, rot.2, d), width),
                screen_y_value(ndc_value(rot.1, rot.2, d), height),
            ),
        )
    }
}

/// The surviving screen positions of a vertex list, in the vertices' own
/// order: each vertex contributes its projection, or nothing when the
/// near-plane test discards it.
pub open spec fn projected_seq(
    verts: Seq<Vector3>,
    angle: int,
    cam: Vector3,
    d: int,
    width: int,
    height: int,
) -> Seq<(int, int)>
    decreases verts.len(),
{
    if verts.len() == 0 {
        Seq::empty()
    } else {
        let rest = projected_seq(verts.drop_last(), angle, cam, d, width, height);
        match project_point(angle, cam, verts.last(), d, width, height) {
            Some(p) => rest.push(p),
            None => rest,
        }
    }
}

/// A projected list never holds more entries than the vertex list.
pub proof fn lemma_projected_len(
    verts: Seq<Vector3>,
    angle: int,
    cam: Vector3,
    d: int,
    width: int,
    height: int,
)
    ensures
        projected_seq(verts, angle, cam, d, width, height).len() <= verts.len(),
    decreases verts.len(),
{
    if verts.len() > 0 {
        lemma_projected_len(verts.drop_last(), angle, cam, d, width, height);
    }
}

/// Projection is deterministic and reproducible: two identical camera poses,
/// view distances, viewport sizes and vertex lists determine identical
/// projected lists — the list is a pure function of those inputs and of
/// nothing else.
pub proof fn lemma_projection_deterministic(
    verts1: Seq<Vector3>,
    verts2: Seq<Vector3>,
    angle1: int,
    angle2: int,
    cam1: Vector3,
    cam2: Vector3,
    d1: int,
    d2: int,
    width1: int,
    width2: int,
    height1: int,
    height2: int,
)
    requires
        verts1 == verts2,
        angle1 == angle2,
        cam1 == cam2,
        d1 == d2,
        width1 == width2,
        height1 == height2,
    ensures
        projected_seq(verts1, angle1, cam1, d1, width1, height1) == projected_seq(
            verts2,
            angle2,
            cam2,
            d2,
            width2,
            height2,
        ),
{
}

/// A point whose camera-space depth is not positive is discarded by the
/// near-plane test: it contributes no entry to the projected list, whatever
/// its other coordinates.
pub proof fn lemma_behind_point_discarded(
    verts: Seq<Vector3>,
    angle: int,
    cam: Vector3,
    p: Vector3,
    d: int,
    width: int,
    height: int,
)
    requires
        rotated_point(angle, p.x - cam.x, p.y - cam.y, p.z - cam.z).2 <= 0,
    ensures
        project_point(angle, cam, p, d, width, height) is None,
        projected_seq(verts.push(p), angle, cam, d, width, height) == projected_seq(
            verts,
            angle,
            cam,
            d,
            width,
            height,
        ),
{
    assert(verts.push(p).drop_last() =~= verts);
    assert(verts.push(p).last() == p);
}

/// A point exactly at the camera position has camera-space offset
/// `(0, 0, 0)`, hence depth `0`, and the near-plane test discards it: the
/// boundary depth is rejected, never divided by.
pub proof fn lemma_point_at_camera_discarded(
    verts: Seq<Vector3>,
    angle: int,
    cam: Vector3,
    d: int,
    width: int,
    height: int,
)
    ensures
        rotated_point(angle, 0, 0, 0).2 == 0,
        project_point(angle, cam, cam, d, width, height) is None,
        projected_seq(verts.push(cam), angle, cam, d, width, height) == projected_seq(
            verts,
            angle,
            cam,
            d,
            width,
            height,
        ),
{
    lemma_scaled_zero(cos_millideg(angle));
    lemma_scaled_zero(sin_millideg(angle));
    lemma_scaled_zero(-sin_millideg(angle));
    lemma_behind_point_discarded(verts, angle, cam, cam, d, width, height);
}

/// Moving the view plane farther out magnifies the picture: for a surviving
/// point (depth `z > 0`) and view distances `d1 < d2`, the fixed-point
/// normalized device coordinate never shrinks in magnitude, and off the
/// camera axis (`r != 0`) the exact product the divide truncates grows
/// strictly. (After truncation the growth need not be strict: `r = 1`,
/// `z = 2`, `d1 = 1`, `d2 = 2` gives `0` both times.)
pub proof fn lemma_zoom_magnifies(r: int, z: int, d1: int, d2: int)
    requires
        z > 0,
        0 < d1 < d2,
    ensures
        abs_int(ndc_value(r, z, d1)) <= abs_int(ndc_value(r, z, d2)),
        r != 0 ==> abs_int(r * d1) < abs_int(r * d2),
        abs_int(r) >= z ==> abs_int(ndc_value(r, z, d1)) < abs_int(ndc_value(r, z, d2)),
{
    if abs_int(r) >= z {
        assert(abs_int(r * d2) >= abs_int(r * d1) + z) by (nonlinear_arith)
            requires
                0 < z <= abs_int(r),
                0 < d1 < d2,
        ;
        lemma_div_tz_abs(r * d1, z);
        lemma_div_tz_abs(r * d2, z);
        vstd::arithmetic::div_mod::lemma_div_plus_one(abs_int(r * d1), z);
        vstd::arithmetic::div_mod::lemma_div_is_ordered(
            abs_int(r * d1) + z,
            abs_int(r * d2),
            z,
        );
    }
    if r >= 0 {
        assert(0 <= r * d1 <= r * d2) by (nonlinear_arith)
            requires
                r >= 0,
                0 < d1 <= d2,
        ;
        vstd::arithmetic::div_mod::lemma_div_is_ordered(r * d1, r * d2, z);
        vstd::arithmetic::div_mod::lemma_div_pos_is_pos(r * d1, z);
        vstd::arithmetic::div_mod::lemma_div_pos_is_pos(r * d2, z);
    } else {
        assert(0 <= (-r) * d1 <= (-r) * d2) by (nonlinear_arith)
            requires
                r < 0,
                0 < d1 <= d2,
        ;
        assert(-(r * d1) == (-r) * d1) by (nonlinear_arith);
        assert(-(r * d2) == (-r) * d2) by (nonlinear_arith);
        vstd::arithmetic::div_mod::lemma_div_is_ordered((-r) * d1, (-r) * d2, z);
        vstd::arithmetic::div_mod::lemma_div_pos_is_pos((-r) * d1, z);
        vstd::arithmetic::div_mod::lemma_div_pos_is_pos((-r) * d2, z);
    }
    assert(r != 0 ==> abs_int(r * d1) < abs_int(r * d2)) by (nonlinear_arith)
        requires
            0 < d1 < d2,
    ;
}

/// The mathematical contents of an executable projected-point list.
pub open spec fn view_points(pts: Seq<(i128, i128)>) -> Seq<(int, int)> {
    pts.map_values(|p: (i128, i128)| (p.0 as int, p.1 as int))
}

/// Applies the yaw basis `rgt`/`fwd` (and the world up) to a camera-space
/// offset, exactly as three scaled basis vectors summed componentwise.
fn rotate_cs(rgt: Vector3, fwd: Vector3, cs: Vector3) -> (rot: Vector3)
    requires
        rgt.y == 0,
        fwd.y == 0,
        abs_int(rgt.x as int) <= FP_ONE,
        abs_int(rgt.z as int) <= FP_ONE,
        abs_int(fwd.x as int) <= FP_ONE,
        abs_int(fwd.z as int) <= FP_ONE,
        abs_int(cs.x as int) <= 2 * COORD_LIMIT,
        abs_int(cs.y as int) <= 2 * COORD_LIMIT,
        abs_int(cs.z as int) <= 2 * COORD_LIMIT,
    ensures
        rot.x == scaled(rgt.x as int, cs.x as int) + scaled(fwd.x as int, cs.z as int),
        rot.y == cs.y,
        rot.z == scaled(rgt.z as int, cs.x as int) + scaled(fwd.z as int, cs.z as int),
        abs_int(rot.x as int) <= 4_000_000_000_000_000_000,
        abs_int(rot.y as int) <= 2 * COORD_LIMIT,
        abs_int(rot.z as int) <= 4_000_000_000_000_000_000,
{
    proof {
        lemma_scaled_bound(rgt.x as int, cs.x as int, FP_ONE as int, 2 * COORD_LIMIT as int);
        lemma_scaled_bound(rgt.z as int, cs.x as int, FP_ONE as int, 2 * COORD_LIMIT as int);
        lemma_scaled_bound(fwd.x as int, cs.z as int, FP_ONE as int, 2 * COORD_LIMIT as int);
        lemma_scaled_bound(fwd.z as int, cs.z as int, FP_ONE as int, 2 * COORD_LIMIT as int);
        lemma_scaled_zero(cs.x as int);
        lemma_scaled_zero(cs.z as int);
        lemma_scaled_zero(cs.y as int);
        lemma_scaled_unit(cs.y as int);
    }
    let a = rgt.mul(cs.x);
    let b = fwd.mul(cs.z);
    let c = Vector3::up().mul(cs.y);
    a.add(b).add(c)
}

impl Renderer {
    /// The projected list this camera pose and vertex list determine.
    pub open spec fn spec_projected(&self, width: int, height: int) -> Seq<(int, int)> {
        projected_seq(
            self.vertices@,
            self.camera_angle as int,
            self.camera_pos,
            self.projection_plane_distance as int,
            width,
            height,
        )
    }

    /// Projects every scene vertex in order and returns the screen positions
    /// of those that pass the near-plane test, as fixed-point pixel
    /// coordinates. The result is exactly the list [`projected_seq`]
    /// determines: the same pose and vertices always reproduce it.
    pub fn project_vertices(&self, height: i32, width: i32) -> (out: Vec<(i128, i128)>)
        requires
            self.wf(),
            0 <= width <= 1_000_000,
            0 <= height <= 1_000_000,
        ensures
            view_points(out@) == self.spec_projected(width as int, height as int),
            out@.len() <= self.vertices@.len(),
            forall|i: int|
                0 <= i < out@.len() ==> abs_int(#[trigger] out@[i].0 as int) <= SCREEN_ABS_LIMIT
                    && abs_int(out@[i].1 as int) <= SCREEN_ABS_LIMIT,
    {
        let ghost gangle = self.camera_angle as int;
        let ghost gcam = self.camera_pos;
        let ghost gd = self.projection_plane_distance as int;
        let ghost gw = width as int;
        let ghost gh = height as int;

        let fwd = self.get_cam_forward();
        let rgt = self.get_cam_right();
        let d = self.projection_plane_distance;
        let half_w = div_trunc((width as i128) * (FP_ONE as i128), 2);
        let half_h = div_trunc((height as i128) * (FP_ONE as i128), 2);
        proof {
            assert(half_w == gw * FP_ONE / 2);
            assert(half_h == gh * FP_ONE / 2);
        }

        let mut out: Vec<(i128, i128)> = Vec::new();
        let mut idx: usize = 0;
        while idx < self.vertices.len()
            invariant
                self.wf(),
                0 <= idx <= self.vertices@.len(),
                fwd.x == sin_millideg(gangle),
                fwd.y == 0,
                fwd.z == cos_millideg(gangle),
                rgt.x == cos_millideg(gangle),
                rgt.y == 0,
                rgt.z == -sin_millideg(gangle),
                -FP_ONE <= fwd.x <= FP_ONE,
                -FP_ONE <= fwd.z <= FP_ONE,
                -FP_ONE <= rgt.x <= FP_ONE,
                -FP_ONE <= rgt.z <= FP_ONE,
                d == self.projection_plane_distance,
                half_w == gw * FP_ONE / 2,
                half_h == gh * FP_ONE / 2,
                gangle == self.camera_angle as int,
                gcam == self.camera_pos,
                gd == self.projection_plane_distance as int,
                gw == width as int,
                gh == height as int,
                out@.len() <= idx,
                forall|i: int|
                    0 <= i < out@.len() ==> abs_int(
                        #[trigger] out@[i].0 as int,
                    ) <= SCREEN_ABS_LIMIT && abs_int(out@[i].1 as int) <= SCREEN_ABS_LIMIT,
                view_points(out@) == projected_seq(
                    self.vertices@.take(idx as int),
                    gangle,
                    gcam,
                    gd,
                    gw,
                    gh,
                ),
            decreases self.vertices@.len() - idx,
        {
            let ghost prefix = self.vertices@.take(idx as int);
            let ghost prev = out@;
            let vert = self.vertices[idx];
            proof {
                assert(in_coord_bounds(self.vertices@[idx as int]));
            }
            let cs = vert.sub(self.camera_pos);
            let rot = rotate_cs(rgt, fwd, cs);
            let ghost grot = rotated_point(gangle, cs.x as int, cs.y as int, cs.z as int);
            proof {
                assert(grot.0 == rot.x && grot.1 == rot.y && grot.2 == rot.z);
            }
            if rot.z > 0 {
                proof {
                    lemma_abs_mul_bound(
                        rot.x as int,
                        d as int,
                        4_000_000_000_000_000_000,
                        crate::renderer::DIST_LIMIT as int,
                    );
                    lemma_abs_mul_bound(
                        rot.y as int,
                        d as int,
                        2 * COORD_LIMIT as int,
                        crate::renderer::DIST_LIMIT as int,
                    );
                }
                let num_x = (rot.x as i128) * (d as i128);
                let num_y = (rot.y as i128) * (d as i128);
                let ndc_x = div_trunc(num_x, rot.z as i128);
                let ndc_y = div_trunc(num_y, rot.z as i128);
                proof {
                    lemma_div_tz_bounds(num_x as int, rot.z as int);
                    lemma_div_tz_bounds(num_y as int, rot.z as int);
                    lemma_abs_mul_bound(
                        ndc_x as int,
                        VIEW_SCALE as int,
                        4_000_000_000_000_000_000_000_000_000,
                        VIEW_SCALE as int,
                    );
                    lemma_abs_mul_bound(
                        ndc_y as int,
                        VIEW_SCALE as int,
                        4_000_000_000_000_000_000_000_000_000,
                        VIEW_SCALE as int,
                    );
                }
                let sx = ndc_x * (VIEW_SCALE as i128) + half_w;
                let sy = -ndc_y * (VIEW_SCALE as i128) + half_h;
                out.push((sx, sy));
                proof {
                    let p = project_point(gangle, gcam, self.vertices@[idx as int], gd, gw, gh);
                    assert(p == Some((sx as int, sy as int)));
                    assert(view_points(out@) =~= view_points(prev).push((sx as int, sy as int)));
                }
            } else {
                proof {
                    assert(project_point(
                        gangle,
                        gcam,
                        self.vertices@[idx as int],
                        gd,
                        gw,
                        gh,
                    ) is None);
                }
            }
            proof {
                assert(self.vertices@.take(idx + 1).drop_last() =~= prefix);
                assert(self.vertices@.take(idx + 1).last() == self.vertices@[idx as int]);
            }
            idx = idx + 1;
        }
        proof {
            assert(self.vertices@.take(self.vertices@.len() as int) =~= self.vertices@);
            lemma_projected_len(self.vertices@, gangle, gcam, gd, gw, gh);
        }
        out
    }
}

} // verus!
