//! End-to-end checks of the projection pipeline on concrete scenes.

use point_renderer::{Renderer, Vector3, FP_ONE};

fn cube_renderer(vertices: Vec<Vector3>) -> Renderer {
    Renderer {
        vertices,
        camera_pos: Vector3::new(0, 0, -5 * FP_ONE),
        projection_plane_distance: FP_ONE,
        camera_angle: 0,
    }
}

#[test]
fn center_point_projects_to_screen_middle() {
    // Camera at (0,0,-5), yaw 0, distance 1: the origin lands at the middle
    // of a 600x400 viewport, pixel (300, 200) in fixed point.
    let r = cube_renderer(vec![Vector3::new(0, 0, 0)]);
    let out = r.project_vertices(400, 600);
    assert_eq!(out, vec![(300 * 1_000_000i128, 200 * 1_000_000i128)]);
}

#[test]
fn offset_point_projects_right_of_middle() {
    // Same pose, point (1,0,0): camera-space (1,0,5), ndc (0.2, 0), screen
    // (300 + 0.2 * 500, 200) = (400, 200).
    let r = cube_renderer(vec![Vector3::new(FP_ONE, 0, 0)]);
    let out = r.project_vertices(400, 600);
    assert_eq!(out, vec![(400 * 1_000_000i128, 200 * 1_000_000i128)]);
}

#[test]
fn projection_is_reproducible() {
    let verts = vec![
        Vector3::new(0, 0, 0),
        Vector3::new(FP_ONE, 0, 0),
        Vector3::new(0, FP_ONE, FP_ONE),
    ];
    let r1 = cube_renderer(verts.clone());
    let r2 = cube_renderer(verts);
    let first = r1.project_vertices(400, 600);
    let again = r1.project_vertices(400, 600);
    let other = r2.project_vertices(400, 600);
    assert_eq!(first, again);
    assert_eq!(first, other);
}

#[test]
fn point_behind_camera_is_dropped() {
    // Depth in camera space is -1: the near-plane test discards the point.
    let r = cube_renderer(vec![Vector3::new(0, 0, -6 * FP_ONE)]);
    let out = r.project_vertices(400, 600);
    assert!(out.is_empty());
}

#[test]
fn point_at_camera_position_is_dropped() {
    // Camera-space offset (0,0,0): depth 0 fails the strict depth > 0 test,
    // so the boundary is rejected, never divided by.
    let r = cube_renderer(vec![Vector3::new(0, 0, -5 * FP_ONE)]);
    let out = r.project_vertices(400, 600);
    assert!(out.is_empty());
}

#[test]
fn surviving_points_keep_their_order() {
    let r = cube_renderer(vec![
        Vector3::new(FP_ONE, 0, 0),
        Vector3::new(0, 0, -6 * FP_ONE), // behind: dropped
        Vector3::new(0, 0, 0),
    ]);
    let out = r.project_vertices(400, 600);
    assert_eq!(
        out,
        vec![
            (400 * 1_000_000i128, 200 * 1_000_000i128),
            (300 * 1_000_000i128, 200 * 1_000_000i128),
        ]
    );
}

#[test]
fn larger_view_distance_magnifies() {
    // Doubling the view-plane distance doubles the surviving point's offset
    // from the screen center.
    let near = cube_renderer(vec![Vector3::new(FP_ONE, 0, 0)]);
    let mut far = cube_renderer(vec![Vector3::new(FP_ONE, 0, 0)]);
    far.projection_plane_distance = 2 * FP_ONE;
    let out_near = near.project_vertices(400, 600);
    let out_far = far.project_vertices(400, 600);
    let center_x = 300 * 1_000_000i128;
    let off_near = (out_near[0].0 - center_x).abs();
    let off_far = (out_far[0].0 - center_x).abs();
    assert_eq!(off_near, 100 * 1_000_000i128);
    assert_eq!(off_far, 200 * 1_000_000i128);
    assert!(off_far > off_near);
}

#[test]
fn empty_scene_projects_to_nothing() {
    let r = cube_renderer(Vec::new());
    let out = r.project_vertices(400, 600);
    assert!(out.is_empty());
}

#[test]
fn eight_cube_corners_all_survive() {
    let mut verts = Vec::new();
    for &x in &[0, FP_ONE] {
        for &y in &[0, FP_ONE] {
            for &z in &[0, FP_ONE] {
                verts.push(Vector3::new(x, y, z));
            }
        }
    }
    let r = cube_renderer(verts);
    let out = r.project_vertices(400, 600);
    assert_eq!(out.len(), 8);
}
