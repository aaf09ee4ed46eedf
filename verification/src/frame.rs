//! The frame fill routine: every pixel of the output buffer receives a
//! deterministic color — a diagonal gradient backdrop, overridden by a solid
//! white marker wherever a projected point lands nearby.
//!
//! Every byte of the buffer is fully determined by the viewport size and the
//! projected-point list, so refilling an arbitrary buffer always produces
//! the same contents. A projected point with a negative screen coordinate,
//! or one far beyond the viewport, covers no pixel: out-of-range points are
//! silently dropped, never an out-of-bounds access.

use vstd::prelude::*;
use vstd::pervasive::VecAdditionalExecFns;
use crate::fixed::{abs_int, div_trunc, div_tz, lemma_div_tz_bounds, FP_ONE};
use crate::projection::{view_points, SCREEN_ABS_LIMIT};
use crate::renderer::Renderer;

verus! {

/// Half-width, in pixels, of the square marker drawn over a projected point.
pub const MARKER_HALF_WIDTH: i64 = 5;

/// Whether the projected point `p` (in fixed-point screen coordinates)
/// covers the pixel `(x, y)`: the point's coordinates are nonnegative and
/// its pixel position is within [`MARKER_HALF_WIDTH`] of `(x, y)` on both
/// axes.
pub open spec fn covers(p: (int, int), x: int, y: int) -> bool {
    &&& p.0 >= 0
    &&& p.1 >= 0
    &&& abs_int(x - div_tz(p.0, FP_ONE as int)) < MARKER_HALF_WIDTH
    &&& abs_int(y - div_tz(p.1, FP_ONE as int)) < MARKER_HALF_WIDTH
}

/// Whether any projected point covers the pixel `(x, y)`.
pub open spec fn is_marked(pts: Seq<(int, int)>, x: int, y: int) -> bool {
    exists|k: int| 0 <= k < pts.len() && covers(pts[k], x, y)
}

/// The red gradient channel: `x` of `width` columns, scaled to `0..255` and
/// truncated.
pub open spec fn gradient_red(x: int, width: int) -> int {
    x * 255 / width
}

/// The green gradient channel: `y` of `height` rows, scaled to `0..255` and
/// truncated.
pub open spec fn gradient_green(y: int, height: int) -> int {
    y * 255 / height
}

/// The byte at offset `i` of a filled RGBA frame: pixels are row-major,
/// four bytes each; alpha is always opaque; a marked pixel is solid white;
/// an unmarked one shows the gradient with a zero blue channel.
pub open spec fn spec_frame_byte(i: int, width: int, height: int, pts: Seq<(int, int)>) -> u8 {
    let pix = i / 4;
    let c = i % 4;
    let x = pix % width;
    let y = pix / width;
    if c == 3 {
        255u8
    } else if is_marked(pts, x, y) {
        255u8
    } else if c == 0 {
        gradient_red(x, width) as u8
    } else if c == 1 {
        gradient_green(y, height) as u8
    } else {
        0u8
    }
}

/// The frame fill is idempotent: two buffers filled from the same viewport
/// and the same projected-point list hold identical bytes, whatever either
/// buffer held before — every byte is a function of the fill's inputs alone.
pub proof fn lemma_fill_idempotent(
    f1: Seq<u8>,
    f2: Seq<u8>,
    width: int,
    height: int,
    pts: Seq<(int, int)>,
)
    requires
        f1.len() == 4 * width * height,
        f2.len() == 4 * width * height,
        forall|i: int| 0 <= i < f1.len() ==> f1[i] == spec_frame_byte(i, width, height, pts),
        forall|i: int| 0 <= i < f2.len() ==> f2[i] == spec_frame_byte(i, width, height, pts),
    ensures
        f1 == f2,
{
    assert(f1 =~= f2);
}

/// A point behind the camera (camera-space depth `<= 0`) never appears in
/// the projected list, so it marks no pixel and changes no byte of the
/// frame, regardless of its other coordinates.
pub proof fn lemma_behind_point_never_drawn(
    verts: Seq<crate::vector3::Vector3>,
    angle: int,
    cam: crate::vector3::Vector3,
    p: crate::vector3::Vector3,
    d: int,
    width: int,
    height: int,
)
    requires
        crate::projection::rotated_point(angle, p.x - cam.x, p.y - cam.y, p.z - cam.z).2 <= 0,
    ensures
        forall|x: int, y: int|
            is_marked(
                crate::projection::projected_seq(verts.push(p), angle, cam, d, width, height),
                x,
                y,
            ) == is_marked(
                crate::projection::projected_seq(verts, angle, cam, d, width, height),
                x,
                y,
            ),
        forall|i: int|
            spec_frame_byte(
                i,
                width,
                height,
                crate::projection::projected_seq(verts.push(p), angle, cam, d, width, height),
            ) == spec_frame_byte(
                i,
                width,
                height,
                crate::projection::projected_seq(verts, angle, cam, d, width, height),
            ),
{
    crate::projection::lemma_behind_point_discarded(verts, angle, cam, p, d, width, height);
}

/// Packs an RGBA byte frame into one 24-bit RGB integer per pixel
/// (`r * 65536 + g * 256 + b`, alpha dropped), the layout a whole-pixel
/// presentation buffer expects.
pub fn pack_pixels(frame: &Vec<u8>) -> (out: Vec<u32>)
    requires
        frame@.len() % 4 == 0,
    ensures
        out@.len() == frame@.len() / 4,
        forall|i: int|
            0 <= i < out@.len() ==> #[trigger] out@[i] == frame@[4 * i] * 65536 + frame@[4 * i
                + 1] * 256 + frame@[4 * i + 2],
{
    let count = frame.len() / 4;
    let mut out: Vec<u32> = Vec::new();
    let mut i: usize = 0;
    while i < count
        invariant
            0 <= i <= count,
            count == frame@.len() / 4,
            frame@.len() % 4 == 0,
            frame@.len() <= usize::MAX,
            out@.len() == i,
            forall|j: int|
                0 <= j < i ==> #[trigger] out@[j] == frame@[4 * j] * 65536 + frame@[4 * j + 1]
                    * 256 + frame@[4 * j + 2],
        decreases count - i,
    {
        proof {
            vstd::arithmetic::div_mod::lemma_fundamental_div_mod(frame@.len() as int, 4);
        }
        let r = frame[4 * i];
        let g = frame[4 * i + 1];
        let b = frame[4 * i + 2];
        let packed: u32 = (r as u32) * 65536 + (g as u32) * 256 + (b as u32);
        out.push(packed);
        i = i + 1;
    }
    out
}

/// Whether any point of `pts` covers the pixel `(x, y)`, searched in list
/// order with a short-circuit on the first match.
fn marker_hit(pts: &Vec<(i128, i128)>, x: usize, y: usize) -> (hit: bool)
    requires
        x <= 1_000_000,
        y <= 1_000_000,
        forall|i: int|
            0 <= i < pts@.len() ==> abs_int(#[trigger] pts@[i].0 as int) <= SCREEN_ABS_LIMIT
                && abs_int(pts@[i].1 as int) <= SCREEN_ABS_LIMIT,
    ensures
        hit == is_marked(view_points(pts@), x as int, y as int),
{
    let ghost gpts = view_points(pts@);
    let mut hit = false;
    let mut k: usize = 0;
    while k < pts.len() && !hit
        invariant
            0 <= k <= pts@.len(),
            gpts == view_points(pts@),
            gpts.len() == pts@.len(),
            forall|i: int|
                0 <= i < pts@.len() ==> abs_int(#[trigger] pts@[i].0 as int) <= SCREEN_ABS_LIMIT
                    && abs_int(pts@[i].1 as int) <= SCREEN_ABS_LIMIT,
            x <= 1_000_000,
            y <= 1_000_000,
            !hit ==> forall|j: int| 0 <= j < k ==> !covers(gpts[j], x as int, y as int),
            hit ==> is_marked(gpts, x as int, y as int),
        decreases pts@.len() - k,
    {
        let p = pts[k];
        let mut here = false;
        if p.0 >= 0 && p.1 >= 0 {
            proof {
                lemma_div_tz_bounds(p.0 as int, FP_ONE as int);
                lemma_div_tz_bounds(p.1 as int, FP_ONE as int);
            }
            let px = div_trunc(p.0, FP_ONE as i128);
            let py = div_trunc(p.1, FP_ONE as i128);
            let xi = x as i128;
            let yi = y as i128;
            let dx = if xi >= px {
                xi - px
            } else {
                px - xi
            };
            let dy = if yi >= py {
                yi - py
            } else {
                py - yi
            };
            here = dx < (MARKER_HALF_WIDTH as i128) && dy < (MARKER_HALF_WIDTH as i128);
        }
        proof {
            assert(here == covers(gpts[k as int], x as int, y as int));
        }
        if here {
            hit = true;
        }
        k = k + 1;
    }
    hit
}

impl Renderer {
    /// Fills `frame` as one rendered picture: projects the scene's vertices
    /// with the current camera pose, then assigns every RGBA pixel its
    /// gradient or marker color. Every byte of the result is the exact value
    /// [`spec_frame_byte`] determines — nothing of the buffer's previous
    /// contents survives.
    pub fn draw(&self, frame: &mut Vec<u8>, width: usize, height: usize)
        requires
            self.wf(),
            0 < width <= 1_000_000,
            0 < height <= 1_000_000,
            old(frame)@.len() == 4 * width * height,
        ensures
            final(frame)@.len() == 4 * width * height,
            forall|i: int|
                0 <= i < 4 * width * height ==> final(frame)@[i] == spec_frame_byte(
                    i,
                    width as int,
                    height as int,
                    self.spec_projected(width as int, height as int),
                ),
    {
        let ghost gw = width as int;
        let ghost gh = height as int;
        let ghost gpts = self.spec_projected(gw, gh);
        let n = frame.len();
        let pts = self.project_vertices(height as i32, width as i32);
        let mut y: usize = 0;
        while y < height
            invariant
                self.wf(),
                0 <= y <= height,
                0 < width <= 1_000_000,
                0 < height <= 1_000_000,
                gw == width as int,
                gh == height as int,
                gpts == self.spec_projected(gw, gh),
                view_points(pts@) == gpts,
                forall|i: int|
                    0 <= i < pts@.len() ==> abs_int(#[trigger] pts@[i].0 as int)
                        <= SCREEN_ABS_LIMIT && abs_int(pts@[i].1 as int) <= SCREEN_ABS_LIMIT,
                n == 4 * gw * gh,
                frame@.len() == n,
                forall|i: int|
                    0 <= i < 4 * (y * gw) ==> frame@[i] == spec_frame_byte(i, gw, gh, gpts),
            decreases gh - y,
        {
            let mut x: usize = 0;
            proof {
                assert(y * gw + 0 == y * gw);
            }
            while x < width
                invariant
                    self.wf(),
                    0 <= x <= width,
                    0 <= y < height,
                    0 < width <= 1_000_000,
                    0 < height <= 1_000_000,
                    gw == width as int,
                    gh == height as int,
                    gpts == self.spec_projected(gw, gh),
                    view_points(pts@) == gpts,
                    forall|i: int|
                        0 <= i < pts@.len() ==> abs_int(#[trigger] pts@[i].0 as int)
                            <= SCREEN_ABS_LIMIT && abs_int(pts@[i].1 as int) <= SCREEN_ABS_LIMIT,
                    n == 4 * gw * gh,
                    frame@.len() == n,
                    forall|i: int|
                        0 <= i < 4 * (y * gw + x) ==> frame@[i] == spec_frame_byte(
                            i,
                            gw,
                            gh,
                            gpts,
                        ),
                decreases gw - x,
            {
                proof {
                    assert(0 <= y * gw + x && y * gw + x < gw * gh) by (nonlinear_arith)
                        requires
                            0 <= x < gw,
                            0 <= y < gh,
                    ;
                    assert(4 * (gw * gh) == 4 * gw * gh) by (nonlinear_arith);
                    assert(4 * (y * gw + x) + 3 < n);
                }
                let pix: usize = y * width + x;
                let base: usize = 4 * pix;
                let hit = marker_hit(&pts, x, y);
                let (r, g, b) = if hit {
                    (255u8, 255u8, 255u8)
                } else {
                    proof {
                        vstd::arithmetic::div_mod::lemma_multiply_divide_lt(
                            (x * 255) as int,
                            gw,
                            255,
                        );
                        vstd::arithmetic::div_mod::lemma_multiply_divide_lt(
                            (y * 255) as int,
                            gh,
                            255,
                        );
                    }
                    let rr = ((x * 255) / width) as u8;
                    let gg = ((y * 255) / height) as u8;
                    (rr, gg, 0u8)
                };
                frame.set(base, r);
                frame.set(base + 1, g);
                frame.set(base + 2, b);
                frame.set(base + 3, 255u8);
                proof {
                    let pixi = y * gw + x;
                    vstd::arithmetic::div_mod::lemma_fundamental_div_mod_converse(pixi, gw, y as int, x as int);
                    vstd::arithmetic::div_mod::lemma_fundamental_div_mod_converse(4 * pixi + 0, 4, pixi, 0);
                    vstd::arithmetic::div_mod::lemma_fundamental_div_mod_converse(4 * pixi + 1, 4, pixi, 1);
                    vstd::arithmetic::div_mod::lemma_fundamental_div_mod_converse(4 * pixi + 2, 4, pixi, 2);
                    vstd::arithmetic::div_mod::lemma_fundamental_div_mod_converse(4 * pixi + 3, 4, pixi, 3);
                    assert(frame@[4 * pixi + 0] == spec_frame_byte(4 * pixi + 0, gw, gh, gpts));
                    assert(frame@[4 * pixi + 1] == spec_frame_byte(4 * pixi + 1, gw, gh, gpts));
                    assert(frame@[4 * pixi + 2] == spec_frame_byte(4 * pixi + 2, gw, gh, gpts));
                    assert(frame@[4 * pixi + 3] == spec_frame_byte(4 * pixi + 3, gw, gh, gpts));
                    assert(4 * (y * gw + (x + 1)) == 4 * pixi + 4);
                }
                x = x + 1;
            }
            proof {
                assert(y * gw + gw == (y + 1) * gw) by (nonlinear_arith);
            }
            y = y + 1;
        }
        proof {
            assert(4 * (gh * gw) == 4 * gw * gh) by (nonlinear_arith);
        }
    }
}

} // verus!
