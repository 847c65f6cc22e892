use voxel_camera::camera::Camera;
use voxel_camera::player::{CameraController, Key, Player};
use voxel_camera::PITCH_LIMIT_URAD;

// Speed 14 world units per second and sensitivity 3, fixed point, as
// at start-up.
fn controller() -> CameraController {
    CameraController::new(14_000_000, 3_000_000)
}

fn player_at_origin() -> Player {
    Player::new(0, 0, 0, 0, 0, Camera::new(800, 600))
}

#[test]
fn keyboard_sets_and_clears_flags() {
    let mut c = controller();
    assert!(c.process_keyboard(Key::W, true));
    assert!(c.amount_forward);
    assert!(c.process_keyboard(Key::Up, false));
    assert!(!c.amount_forward);
    assert!(c.process_keyboard(Key::S, true));
    assert!(c.amount_backward);
    assert!(c.process_keyboard(Key::Down, true));
    assert!(c.amount_backward);
    assert!(c.process_keyboard(Key::A, true));
    assert!(c.amount_left);
    assert!(c.process_keyboard(Key::Left, false));
    assert!(!c.amount_left);
    assert!(c.process_keyboard(Key::D, true));
    assert!(c.amount_right);
    assert!(c.process_keyboard(Key::Right, true));
    assert!(c.amount_right);
    assert!(c.process_keyboard(Key::Space, true));
    assert!(c.amount_up);
    assert!(c.process_keyboard(Key::LShift, true));
    assert!(c.amount_down);
    assert!(!c.process_keyboard(Key::Unbound, true));
}

#[test]
fn mouse_ring_buffer_wraps() {
    let mut c = controller();
    assert_eq!(c.mouse_position_history_index, 0);
    for j in 0..11i64 {
        c.process_mouse(j + 1, 0);
    }
    assert_eq!(c.mouse_position_history_index, 1);
    assert_eq!(c.mouse_position_history[0], (11, 0));
    assert_eq!(c.mouse_position_history[1], (2, 0));
    assert_eq!(c.mouse_position_history[9], (10, 0));
}

#[test]
fn consume_axis_scalars() {
    let mut c = controller();
    c.process_keyboard(Key::W, true);
    let i = c.consume(16_666);
    assert_eq!(i.forward, 1);
    assert_eq!(i.right, 0);
    assert_eq!(i.up, 0);
    c.process_keyboard(Key::S, true);
    let i = c.consume(16_666);
    assert_eq!(i.forward, 0);
    c.process_keyboard(Key::D, true);
    c.process_keyboard(Key::LShift, true);
    let i = c.consume(16_666);
    assert_eq!(i.right, 1);
    assert_eq!(i.up, -1);
    // flags persist across consumes until the release event
    let i = c.consume(16_666);
    assert_eq!(i.right, 1);
}

#[test]
fn identical_positions_give_zero_rotation_delta() {
    let mut c = controller();
    for _ in 0..10 {
        c.process_mouse(100, 50);
    }
    // the first consume still reports the move onto that position
    let first = c.consume(16_666);
    assert_ne!(first.yaw_delta_urad, 0);
    // once consumed, a still pointer yields a zero rotation delta
    let settled = c.consume(16_666);
    assert_eq!(settled.yaw_delta_urad, 0);
    assert_eq!(settled.pitch_delta_urad, 0);
    // further identical samples change nothing either
    for _ in 0..7 {
        c.process_mouse(100, 50);
    }
    let still = c.consume(16_666);
    assert_eq!(still.yaw_delta_urad, 0);
    assert_eq!(still.pitch_delta_urad, 0);
}

#[test]
fn rotation_delta_exact_value() {
    let mut c = controller();
    for _ in 0..10 {
        c.process_mouse(100, 50);
    }
    // window sum moved by 1000 in x: 1000 * 3_000_000 * 16_666 / 10^13
    let i = c.consume(16_666);
    assert_eq!(i.yaw_delta_urad, 4);
    // and by 500 in y, negated for pitch
    assert_eq!(i.pitch_delta_urad, -2);
}

#[test]
fn pitch_is_clamped_strictly_inside_quarter_turn() {
    let mut c = CameraController::new(0, 100_000_000);
    let mut p = player_at_origin();
    for _ in 0..10 {
        c.process_mouse(0, 1_000_000);
    }
    // a huge downward pointer move: the raw delta is a whole radian
    p.update(&mut c, 10_000_000, 0, 1_000_000);
    assert_eq!(p.pitch(), -PITCH_LIMIT_URAD);
    assert!(p.pitch() > -1_570_796);
    // and a huge upward one afterwards
    for _ in 0..10 {
        c.process_mouse(0, -1_000_000);
    }
    p.update(&mut c, 10_000_000, 0, 1_000_000);
    assert_eq!(p.pitch(), PITCH_LIMIT_URAD);
    assert!(p.pitch() < 1_570_796);
}

#[test]
fn forward_movement_along_yaw_basis() {
    let mut c = controller();
    c.process_keyboard(Key::W, true);
    let mut p = player_at_origin();
    // yaw 0: sin 0, cos 1, one second: 14 world units forward in x
    p.update(&mut c, 1_000_000, 0, 1_000_000);
    assert_eq!(p.px, 14_000_000);
    assert_eq!(p.py, 0);
    assert_eq!(p.pz, 0);
    // the camera pose was recorded from the new state
    assert_eq!(p.camera().view_px, 14_000_000);
    assert_eq!(p.camera().view_yaw_urad, 0);
}

#[test]
fn vertical_movement_ignores_orientation() {
    let mut c = controller();
    c.process_keyboard(Key::Space, true);
    let mut p = player_at_origin();
    p.update(&mut c, 1_000_000, 0, 1_000_000);
    assert_eq!(p.px, 0);
    assert_eq!(p.py, 14_000_000);
    assert_eq!(p.pz, 0);
}

#[test]
fn strafe_movement_uses_right_basis() {
    let mut c = controller();
    c.process_keyboard(Key::D, true);
    let mut p = player_at_origin();
    // yaw 0: right basis is (-sin, 0, cos) = (0, 0, 1)
    p.update(&mut c, 1_000_000, 0, 1_000_000);
    assert_eq!(p.px, 0);
    assert_eq!(p.pz, 14_000_000);
}
