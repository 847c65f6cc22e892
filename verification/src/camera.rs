//! Camera and projection state. The camera records the pose used for
//! this frame's view-projection transform and owns the perspective
//! projection parameters; turning them into an actual matrix is
//! floating-point work done by the shell that owns the GPU resources.

use vstd::prelude::*;

verus! {

/// Vertical field of view used at start-up: 45 degrees in microradians.
pub const DEFAULT_FOVY_URAD: u32 = 785_398;

/// Near clip plane distance used at start-up: a tenth of a world unit,
/// fixed point.
pub const DEFAULT_ZNEAR_FP: i64 = 100_000;

/// Far clip plane distance used at start-up: two hundred world units,
/// fixed point.
pub const DEFAULT_ZFAR_FP: i64 = 200_000_000;

/// Perspective projection parameters. The aspect ratio is the stored
/// width over the stored height; field of view and clip planes are
/// fixed after construction and only the viewport dimensions change on
/// resize. A zero height is a caller contract violation, not handled
/// defensively.
#[derive(Clone, Copy, PartialEq, Eq, Structural, Debug)]
pub struct Projection {
    pub width: u32,
    pub height: u32,
    /// Vertical field of view in microradians.
    pub fovy_urad: u32,
    /// Near clip plane distance, fixed point.
    pub znear_fp: i64,
    /// Far clip plane distance, fixed point.
    pub zfar_fp: i64,
}

/// The projection after a resize: only the viewport dimensions (and
/// hence the aspect ratio) change.
pub open spec fn resized(p: Projection, width: u32, height: u32) -> Projection {
    Projection {
        width,
        height,
        fovy_urad: p.fovy_urad,
        znear_fp: p.znear_fp,
        zfar_fp: p.zfar_fp,
    }
}

impl Projection {
    /// The viewport has a positive height, so the aspect ratio
    /// width / height is well defined.
    pub open spec fn wf(&self) -> bool {
        self.height >= 1
    }

    pub fn new(width: u32, height: u32, fovy_urad: u32, znear_fp: i64, zfar_fp: i64) -> (p:
        Projection)
        requires
            height >= 1,
        ensures
            p == (Projection { width, height, fovy_urad, znear_fp, zfar_fp }),
            p.wf(),
    {
        Projection { width, height, fovy_urad, znear_fp, zfar_fp }
    }

    /// Record new viewport dimensions; field of view and clip planes
    /// are left untouched.
    pub fn resize(&mut self, width: u32, height: u32)
        requires
            height >= 1,
        ensures
            *final(self) == resized(*old(self), width, height),
            final(self).wf(),
    {
        self.width = width;
        self.height = height;
    }
}

/// Resizing twice with the same dimensions yields exactly the same
/// projection as resizing once, and in particular the same aspect
/// ratio (stored width and height).
pub proof fn lemma_resize_idempotent(p: Projection, width: u32, height: u32)
    ensures
        resized(resized(p, width, height), width, height) == resized(p, width, height),
{
}

/// Numerator of the clip-space depth that a perspective projection
/// with these clip planes assigns to a point at view distance z:
/// far * (z - near) over z * (far - near). The shell's matrix realises
/// this quotient in floating point.
pub open spec fn depth_num(p: Projection, z: int) -> int {
    (p.zfar_fp as int) * (z - p.znear_fp as int)
}

/// Denominator of the clip-space depth at view distance z.
pub open spec fn depth_den(p: Projection, z: int) -> int {
    z * (p.zfar_fp as int - p.znear_fp as int)
}

/// Boundary behaviour of the perspective depth mapping, in exact
/// arithmetic: a point at the near plane distance has depth zero, one
/// at the far plane distance has depth one (numerator equal to the
/// denominator, which is nonzero).
pub proof fn lemma_depth_clip_boundaries(p: Projection)
    requires
        0 < p.znear_fp < p.zfar_fp,
    ensures
        depth_num(p, p.znear_fp as int) == 0,
        depth_num(p, p.zfar_fp as int) == depth_den(p, p.zfar_fp as int),
        depth_den(p, p.zfar_fp as int) > 0,
{
    let n = p.znear_fp as int;
    let f = p.zfar_fp as int;
    assert(f * (n - n) == 0) by (nonlinear_arith);
    assert(f * (f - n) == f * (f - n)) by (nonlinear_arith);
    assert(f * (f - n) > 0) by (nonlinear_arith)
        requires
            f > 0,
            f - n > 0,
    ;
}

/// The camera: the perspective projection plus the pose most recently
/// pushed towards the GPU-visible uniform record. The shell reads this
/// pose each frame to build the view-projection matrix, and owns the
/// depth attachment that must be recreated to the surface dimensions
/// whenever the camera is resized.
#[derive(Clone, Copy, PartialEq, Eq, Structural, Debug)]
pub struct Camera {
    pub projection: Projection,
    /// Camera position recorded for the frame, fixed point.
    pub view_px: i64,
    pub view_py: i64,
    pub view_pz: i64,
    /// Pitch recorded for the frame, microradians.
    pub view_pitch_urad: i64,
    /// Yaw recorded for the frame, microradians.
    pub view_yaw_urad: i64,
}

/// The camera after a resize: only the projection's viewport
/// dimensions change, the recorded pose stays.
pub open spec fn camera_resized(c: Camera, width: u32, height: u32) -> Camera {
    Camera { projection: resized(c.projection, width, height), ..c }
}

/// The camera with a freshly recorded pose.
pub open spec fn posed(c: Camera, px: i64, py: i64, pz: i64, pitch_urad: i64, yaw_urad: i64) -> Camera {
    Camera {
        projection: c.projection,
        view_px: px,
        view_py: py,
        view_pz: pz,
        view_pitch_urad: pitch_urad,
        view_yaw_urad: yaw_urad,
    }
}

impl Camera {
    pub open spec fn wf(&self) -> bool {
        self.projection.wf()
    }

    /// A camera for a fresh surface of the given dimensions, with the
    /// start-up field of view and clip planes and a zeroed pose.
    pub fn new(width: u32, height: u32) -> (c: Camera)
        requires
            height >= 1,
        ensures
            c.projection == (Projection {
                width,
                height,
                fovy_urad: DEFAULT_FOVY_URAD,
                znear_fp: DEFAULT_ZNEAR_FP,
                zfar_fp: DEFAULT_ZFAR_FP,
            }),
            c.view_px == 0 && c.view_py == 0 && c.view_pz == 0,
            c.view_pitch_urad == 0 && c.view_yaw_urad == 0,
            c.wf(),
    {
        Camera {
            projection: Projection::new(
                width,
                height,
                DEFAULT_FOVY_URAD,
                DEFAULT_ZNEAR_FP,
                DEFAULT_ZFAR_FP,
            ),
            view_px: 0,
            view_py: 0,
            view_pz: 0,
            view_pitch_urad: 0,
            view_yaw_urad: 0,
        }
    }

    /// Record the pose from which this frame's view-projection
    /// transform is to be built. This is the side effect visible
    /// outside the component: the shell uploads it on the next submit.
    pub fn update(&mut self, px: i64, py: i64, pz: i64, pitch_urad: i64, yaw_urad: i64)
        ensures
            *final(self) == posed(*old(self), px, py, pz, pitch_urad, yaw_urad),
    {
        self.view_px = px;
        self.view_py = py;
        self.view_pz = pz;
        self.view_pitch_urad = pitch_urad;
        self.view_yaw_urad = yaw_urad;
    }

    /// Forward new surface dimensions to the projection. The shell
    /// must recreate its depth attachment with these same dimensions
    /// so that the depth buffer always matches the surface.
    pub fn resize(&mut self, width: u32, height: u32)
        requires
            height >= 1,
        ensures
            *final(self) == camera_resized(*old(self), width, height),
            final(self).wf(),
    {
        self.projection.resize(width, height);
    }
}

} // verus!
