use voxel_camera::camera::Camera;
use voxel_camera::frame::{fault_action, FrameAction, InputEvent, State, SurfaceFault};
use voxel_camera::player::{CameraController, Key, Player};
use voxel_camera::world::{GridCoord, World};
use voxel_camera::FP_ONE;

fn coord(x: i32, y: i32, z: i32) -> GridCoord {
    GridCoord { x, y, z }
}

fn state_with_world(world: World) -> State {
    State::new(
        world,
        Player::new(0, 0, 0, 0, 0, Camera::new(800, 600)),
        CameraController::new(14_000_000, 3_000_000),
    )
}

#[test]
fn targeting_destroys_the_looked_at_block_once() {
    let mut world = World::new(0);
    world.place(coord(0, 0, 5));
    let mut s = state_with_world(world);
    // camera at the origin looking straight down +z
    let destroyed = s.update_targeting(0, 0, FP_ONE);
    assert_eq!(destroyed, Some(coord(0, 0, 5)));
    assert!(!s.world.contains(coord(0, 0, 5)));
    assert_eq!(s.world.len(), 0);
    // a second identical tick finds nothing to destroy
    let again = s.update_targeting(0, 0, FP_ONE);
    assert_eq!(again, None);
    assert_eq!(s.world.len(), 0);
}

#[test]
fn targeting_first_hit_wins() {
    let mut world = World::new(0);
    world.place(coord(0, 0, 3));
    world.place(coord(0, 0, 5));
    let mut s = state_with_world(world);
    assert_eq!(s.update_targeting(0, 0, FP_ONE), Some(coord(0, 0, 3)));
    assert!(s.world.contains(coord(0, 0, 5)));
    assert_eq!(s.update_targeting(0, 0, FP_ONE), Some(coord(0, 0, 5)));
    assert_eq!(s.update_targeting(0, 0, FP_ONE), None);
}

#[test]
fn targeting_reaches_only_eight_steps() {
    let mut world = World::new(0);
    world.place(coord(0, 0, 9));
    let mut s = state_with_world(world);
    assert_eq!(s.update_targeting(0, 0, FP_ONE), None);
    assert!(s.world.contains(coord(0, 0, 9)));
}

#[test]
fn targeting_rounds_to_nearest_coordinate() {
    let mut world = World::new(0);
    world.place(coord(1, 0, 1));
    let mut s = state_with_world(world);
    // a diagonal look direction: the first sample (0.707, 0, 0.707)
    // rounds to (1, 0, 1)
    let destroyed = s.update_targeting(707_107, 0, 707_107);
    assert_eq!(destroyed, Some(coord(1, 0, 1)));
}

#[test]
fn input_dispatch_updates_controller_only() {
    let mut s = state_with_world(World::new(0));
    assert!(s.input(InputEvent::Keyboard { key: Key::W, pressed: true }));
    assert!(s.camera_controller.amount_forward);
    assert!(s.input(InputEvent::MouseMove { x: 123, y: -45 }));
    assert_eq!(s.camera_controller.mouse_position_history[0], (123, -45));
    assert!(!s.input(InputEvent::Keyboard { key: Key::Unbound, pressed: true }));
}

#[test]
fn resize_ignores_degenerate_sizes() {
    let mut s = state_with_world(World::new(0));
    s.resize(0, 600);
    assert_eq!(s.player.camera().projection.width, 800);
    s.resize(1024, 0);
    assert_eq!(s.player.camera().projection.height, 600);
    s.resize(1024, 768);
    assert_eq!(s.player.camera().projection.width, 1024);
    assert_eq!(s.player.camera().projection.height, 768);
}

#[test]
fn movement_through_the_frame_state() {
    let mut s = state_with_world(World::new(0));
    s.input(InputEvent::Keyboard { key: Key::W, pressed: true });
    s.update_movement(1_000_000, 0, FP_ONE);
    assert_eq!(s.player.px, 14_000_000);
    assert_eq!(s.player.camera().view_px, 14_000_000);
}

#[test]
fn fault_policy() {
    assert_eq!(fault_action(SurfaceFault::Lost), FrameAction::Reconfigure);
    assert_eq!(fault_action(SurfaceFault::Outdated), FrameAction::Reconfigure);
    assert_eq!(fault_action(SurfaceFault::OutOfMemory), FrameAction::Exit);
    assert_eq!(fault_action(SurfaceFault::Timeout), FrameAction::SkipFrame);
}
