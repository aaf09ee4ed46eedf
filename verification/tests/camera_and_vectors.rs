//! Checks of the fixed-point trigonometry, the camera basis, and the vector
//! algebra.

use point_renderer::angle::{cos_fp, normalize_angle, sin_fp};
use point_renderer::{Renderer, Vector3, FP_ONE};

#[test]
fn sine_is_exact_at_cardinal_angles() {
    assert_eq!(sin_fp(0), 0);
    assert_eq!(sin_fp(90_000), FP_ONE);
    assert_eq!(sin_fp(180_000), 0);
    assert_eq!(sin_fp(270_000), -FP_ONE);
    assert_eq!(cos_fp(0), FP_ONE);
    assert_eq!(cos_fp(90_000), 0);
    assert_eq!(cos_fp(180_000), -FP_ONE);
    assert_eq!(cos_fp(270_000), 0);
}

#[test]
fn sine_of_thirty_degrees_is_exactly_half() {
    // Bhaskara's approximation is exact at 30 degrees.
    assert_eq!(sin_fp(30_000), 500_000);
}

#[test]
fn normalization_wraps_negative_angles() {
    assert_eq!(normalize_angle(-90_000), 270_000);
    assert_eq!(normalize_angle(360_000), 0);
    assert_eq!(normalize_angle(725_000), 5_000);
}

#[test]
fn full_turn_restores_forward_and_right() {
    let base = Renderer {
        vertices: Vec::new(),
        camera_pos: Vector3::new(0, 0, 0),
        projection_plane_distance: FP_ONE,
        camera_angle: 37_123,
    };
    let turned = Renderer {
        vertices: Vec::new(),
        camera_pos: Vector3::new(0, 0, 0),
        projection_plane_distance: FP_ONE,
        camera_angle: 37_123 + 360_000,
    };
    assert_eq!(base.get_cam_forward(), turned.get_cam_forward());
    assert_eq!(base.get_cam_right(), turned.get_cam_right());
    assert_eq!(base.get_cam_up(), turned.get_cam_up());
}

#[test]
fn basis_at_zero_yaw() {
    let r = Renderer {
        vertices: Vec::new(),
        camera_pos: Vector3::new(0, 0, 0),
        projection_plane_distance: FP_ONE,
        camera_angle: 0,
    };
    assert_eq!(r.get_cam_forward(), Vector3::new(0, 0, FP_ONE));
    assert_eq!(r.get_cam_right(), Vector3::new(FP_ONE, 0, 0));
    assert_eq!(r.get_cam_up(), Vector3::new(0, FP_ONE, 0));
}

#[test]
fn vector_componentwise_algebra() {
    let a = Vector3::new(1, -2, 3);
    let b = Vector3::new(10, 20, 30);
    assert_eq!(a.add(b), Vector3::new(11, 18, 33));
    assert_eq!(b.sub(a), Vector3::new(9, 22, 27));
    let mut c = Vector3::new(100, 200, 300);
    c.add_assign(a);
    assert_eq!(c, Vector3::new(101, 198, 303));
}

#[test]
fn vector_scaling_truncates_toward_zero() {
    // 3 * 0.5 truncates to 1; -3 * 0.5 truncates to -1 (not -2).
    let v = Vector3::new(3, -3, 2 * FP_ONE);
    let s = v.mul(500_000);
    assert_eq!(s, Vector3::new(1, -1, FP_ONE));
}
