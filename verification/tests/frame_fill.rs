//! Checks of the frame fill routine: gradient, marker, idempotence, packing.

use point_renderer::frame::pack_pixels;
use point_renderer::{Renderer, Vector3, FP_ONE};

fn small_renderer(vertices: Vec<Vector3>) -> Renderer {
    Renderer {
        vertices,
        camera_pos: Vector3::new(0, 0, -5 * FP_ONE),
        projection_plane_distance: FP_ONE,
        camera_angle: 0,
    }
}

fn pixel(frame: &[u8], width: usize, x: usize, y: usize) -> [u8; 4] {
    let base = 4 * (y * width + x);
    [frame[base], frame[base + 1], frame[base + 2], frame[base + 3]]
}

#[test]
fn marker_and_gradient_bytes() {
    // One point at the middle of a 20x10 viewport: pixel (10, 5).
    let r = small_renderer(vec![Vector3::new(0, 0, 0)]);
    let mut frame = vec![0u8; 4 * 20 * 10];
    r.draw(&mut frame, 20, 10);
    // The marked pixel and its box are solid white.
    assert_eq!(pixel(&frame, 20, 10, 5), [255, 255, 255, 255]);
    assert_eq!(pixel(&frame, 20, 14, 9), [255, 255, 255, 255]);
    // Corners outside the marker box show the gradient: r = x*255/width,
    // g = y*255/height, b = 0, alpha opaque.
    assert_eq!(pixel(&frame, 20, 0, 0), [0, 0, 0, 255]);
    assert_eq!(pixel(&frame, 20, 19, 0), [242, 0, 0, 255]);
    assert_eq!(pixel(&frame, 20, 0, 9), [0, 229, 0, 255]);
    // Just outside the 5-pixel half-width on the x axis.
    assert_eq!(pixel(&frame, 20, 4, 5), [51, 127, 0, 255]);
}

#[test]
fn fill_is_idempotent() {
    let r = small_renderer(vec![Vector3::new(0, 0, 0), Vector3::new(FP_ONE, FP_ONE, 0)]);
    let mut once = vec![0u8; 4 * 16 * 12];
    let mut again = vec![0xABu8; 4 * 16 * 12];
    r.draw(&mut once, 16, 12);
    r.draw(&mut again, 16, 12);
    assert_eq!(once, again);
    let snapshot = once.clone();
    r.draw(&mut once, 16, 12);
    assert_eq!(once, snapshot);
}

#[test]
fn behind_point_marks_no_pixel() {
    // The point is behind the camera; whatever its other coordinates, the
    // frame holds no white marker anywhere.
    let r = small_renderer(vec![Vector3::new(3 * FP_ONE, 2 * FP_ONE, -9 * FP_ONE)]);
    let mut frame = vec![0u8; 4 * 20 * 10];
    r.draw(&mut frame, 20, 10);
    for y in 0..10 {
        for x in 0..20 {
            assert_ne!(pixel(&frame, 20, x, y), [255, 255, 255, 255]);
        }
    }
}

#[test]
fn offscreen_point_marks_no_pixel() {
    // This point survives the near-plane test but lands far left of the
    // viewport (negative screen x): it covers no pixel.
    let r = small_renderer(vec![Vector3::new(-10 * FP_ONE, 0, 0)]);
    let out = r.project_vertices(10, 20);
    assert_eq!(out.len(), 1);
    assert!(out[0].0 < 0);
    let mut frame = vec![0u8; 4 * 20 * 10];
    r.draw(&mut frame, 20, 10);
    for y in 0..10 {
        for x in 0..20 {
            assert_ne!(pixel(&frame, 20, x, y), [255, 255, 255, 255]);
        }
    }
}

#[test]
fn packing_drops_alpha_and_orders_channels() {
    let frame = vec![1u8, 2, 3, 255, 0xFF, 0x00, 0x10, 255];
    let packed = pack_pixels(&frame);
    assert_eq!(packed, vec![0x010203u32, 0xFF0010u32]);
}
