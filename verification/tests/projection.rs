use voxel_camera::camera::{
    Camera, Projection, DEFAULT_FOVY_URAD, DEFAULT_ZFAR_FP, DEFAULT_ZNEAR_FP,
};

#[test]
fn projection_keeps_parameters() {
    let p = Projection::new(800, 600, 785_398, 100_000, 200_000_000);
    assert_eq!(p.width, 800);
    assert_eq!(p.height, 600);
    assert_eq!(p.fovy_urad, 785_398);
    assert_eq!(p.znear_fp, 100_000);
    assert_eq!(p.zfar_fp, 200_000_000);
}

#[test]
fn resize_twice_same_size_is_idempotent() {
    let mut p = Projection::new(800, 600, 785_398, 100_000, 200_000_000);
    p.resize(1024, 768);
    let once = p;
    p.resize(1024, 768);
    assert_eq!(p, once);
    assert_eq!(p.width, 1024);
    assert_eq!(p.height, 768);
}

#[test]
fn resize_changes_only_viewport() {
    let mut p = Projection::new(800, 600, 785_398, 100_000, 200_000_000);
    p.resize(1920, 1080);
    assert_eq!(p.width, 1920);
    assert_eq!(p.height, 1080);
    assert_eq!(p.fovy_urad, 785_398);
    assert_eq!(p.znear_fp, 100_000);
    assert_eq!(p.zfar_fp, 200_000_000);
}

#[test]
fn camera_starts_with_default_projection() {
    let c = Camera::new(640, 480);
    assert_eq!(c.projection.width, 640);
    assert_eq!(c.projection.height, 480);
    assert_eq!(c.projection.fovy_urad, DEFAULT_FOVY_URAD);
    assert_eq!(c.projection.znear_fp, DEFAULT_ZNEAR_FP);
    assert_eq!(c.projection.zfar_fp, DEFAULT_ZFAR_FP);
    assert_eq!(c.view_px, 0);
    assert_eq!(c.view_pitch_urad, 0);
}

#[test]
fn camera_update_records_pose() {
    let mut c = Camera::new(640, 480);
    c.update(1_000_000, 5_000_000, 10_000_000, -349_066, -1_570_796);
    assert_eq!(c.view_px, 1_000_000);
    assert_eq!(c.view_py, 5_000_000);
    assert_eq!(c.view_pz, 10_000_000);
    assert_eq!(c.view_pitch_urad, -349_066);
    assert_eq!(c.view_yaw_urad, -1_570_796);
    assert_eq!(c.projection.width, 640);
}

#[test]
fn camera_resize_keeps_pose() {
    let mut c = Camera::new(640, 480);
    c.update(7, 8, 9, 10, 11);
    c.resize(1280, 720);
    assert_eq!(c.projection.width, 1280);
    assert_eq!(c.projection.height, 720);
    assert_eq!(c.view_px, 7);
    assert_eq!(c.view_yaw_urad, 11);
}

// The perspective matrix built from the projection parameters (as the
// shell builds it in floating point) maps a point at the near plane
// distance to clip depth 0 and one at the far plane distance to clip
// depth 1, within floating tolerance.
#[test]
fn perspective_depth_boundaries() {
    let p = Projection::new(800, 600, 785_398, 100_000, 200_000_000);
    let near = p.znear_fp as f64 / 1_000_000.0;
    let far = p.zfar_fp as f64 / 1_000_000.0;
    // the depth rows of a right-handed perspective matrix
    let m22 = (far + near) / (near - far);
    let m23 = (2.0 * far * near) / (near - far);
    let depth_at = |z_view: f64| {
        let clip_z = m22 * z_view + m23;
        let clip_w = -z_view;
        // correction from the [-1, 1] convention to [0, 1]
        0.5 * (clip_z / clip_w) + 0.5
    };
    assert!(depth_at(-near).abs() < 1e-9);
    assert!((depth_at(-far) - 1.0).abs() < 1e-9);
}

#[test]
fn camera_resize_twice_same_size_idempotent() {
    let mut c = Camera::new(640, 480);
    c.resize(1024, 768);
    let once = c;
    c.resize(1024, 768);
    assert_eq!(c, once);
}
