//! Checks of the input-to-motion mapping and the error-report formatting.

use point_renderer::motion::{inc, ZOOM_STEP};
use point_renderer::logging::log_error;
use point_renderer::{InputState, Renderer, Vector3, FP_ONE};

const NO_INPUT: InputState = InputState {
    strafe_right: false,
    strafe_left: false,
    move_forward: false,
    move_back: false,
    rise: false,
    fall: false,
    turn_left: false,
    turn_right: false,
    zoom_in: false,
    zoom_out: false,
};

fn fresh_renderer() -> Renderer {
    Renderer {
        vertices: Vec::new(),
        camera_pos: Vector3::new(0, 0, 0),
        projection_plane_distance: FP_ONE,
        camera_angle: 0,
    }
}

// One 140th of a second in fixed point, truncated.
const FRAME_TIME: i64 = FP_ONE / 140;

#[test]
fn inc_selects_the_signed_increment() {
    assert_eq!(inc(true, false, 5), 5);
    assert_eq!(inc(false, true, 5), -5);
    assert_eq!(inc(false, false, 5), 0);
    // The increasing key wins when both are held.
    assert_eq!(inc(true, true, 5), 5);
}

#[test]
fn holding_forward_moves_along_z() {
    // At yaw 0 the corrected forward axis is (0, 0, 1): one frame at speed
    // 10 for 1/140 s moves the camera by 10 * 7142 steps/frame along z.
    let mut r = fresh_renderer();
    let input = InputState { move_forward: true, ..NO_INPUT };
    r.apply_input(&input, FRAME_TIME);
    assert_eq!(r.camera_pos, Vector3::new(0, 0, 71_420));
    assert_eq!(r.camera_angle, 0);
    assert_eq!(r.projection_plane_distance, FP_ONE);
}

#[test]
fn holding_strafe_right_moves_along_x() {
    let mut r = fresh_renderer();
    let input = InputState { strafe_right: true, ..NO_INPUT };
    r.apply_input(&input, FRAME_TIME);
    assert_eq!(r.camera_pos, Vector3::new(71_420, 0, 0));
}

#[test]
fn holding_rise_moves_straight_up() {
    let mut r = fresh_renderer();
    let input = InputState { rise: true, ..NO_INPUT };
    r.apply_input(&input, FRAME_TIME);
    assert_eq!(r.camera_pos, Vector3::new(0, 71_420, 0));
}

#[test]
fn holding_turn_left_adds_yaw() {
    // 100 degrees per second for 1/140 s: 100_000 * 7142 / 1_000_000
    // millidegrees.
    let mut r = fresh_renderer();
    let input = InputState { turn_left: true, ..NO_INPUT };
    r.apply_input(&input, FRAME_TIME);
    assert_eq!(r.camera_angle, 714);
    assert_eq!(r.camera_pos, Vector3::new(0, 0, 0));
}

#[test]
fn holding_zoom_nudges_the_view_distance() {
    // The zoom step is per processed frame, not scaled by the frame time.
    let mut r = fresh_renderer();
    let input = InputState { zoom_in: true, ..NO_INPUT };
    r.apply_input(&input, FRAME_TIME);
    assert_eq!(r.projection_plane_distance, FP_ONE + ZOOM_STEP);
    let out_input = InputState { zoom_out: true, ..NO_INPUT };
    r.apply_input(&out_input, FRAME_TIME);
    assert_eq!(r.projection_plane_distance, FP_ONE);
}

#[test]
fn idle_input_changes_nothing() {
    let mut r = fresh_renderer();
    r.apply_input(&NO_INPUT, FRAME_TIME);
    assert_eq!(r.camera_pos, Vector3::new(0, 0, 0));
    assert_eq!(r.camera_angle, 0);
    assert_eq!(r.projection_plane_distance, FP_ONE);
}

#[test]
fn movement_follows_a_turned_camera() {
    // At yaw 90 degrees the corrected forward axis is (-1, 0, 0).
    let mut r = fresh_renderer();
    r.camera_angle = 90_000;
    let input = InputState { move_forward: true, ..NO_INPUT };
    r.apply_input(&input, FRAME_TIME);
    assert_eq!(r.camera_pos, Vector3::new(-71_420, 0, 0));
}

#[test]
fn error_report_lines_are_exact() {
    let causes = vec!["surface lost".to_string(), "device removed".to_string()];
    let lines = log_error("render", "swap chain failed", &causes);
    assert_eq!(lines.len(), 3);
    assert_eq!(lines[0], "render() failed: swap chain failed");
    assert_eq!(lines[1], "  Caused by: surface lost");
    assert_eq!(lines[2], "  Caused by: device removed");
}

#[test]
fn error_report_without_causes_is_one_line() {
    let lines = log_error("resize_surface", "out of memory", &Vec::new());
    assert_eq!(lines, vec!["resize_surface() failed: out of memory".to_string()]);
}
