//! Core of a first-person voxel world: a sparse registry of unit blocks,
//! a free-flying camera with perspective projection, smoothing of raw
//! keyboard and mouse input into per-frame motion, and the per-tick
//! orchestration that advances the camera, resolves the targeting ray
//! against the registry, and snapshots the blocks for drawing.
//!
//! All positions and angles are held as fixed-point integers (millionths
//! of a world unit or of a radian); the surrounding shell converts to
//! floating point only at the drawing boundary.

use vstd::prelude::*;

pub mod camera;
pub mod frame;
pub mod player;
pub mod world;

verus! {

/// One whole unit of any fixed-point quantity: positions, angles,
/// speeds and trigonometric values are all held in millionths.
pub const FP_ONE: i64 = 1_000_000;

/// Bound on the camera pitch, in microradians. It sits a tenth of a
/// milliradian below a quarter turn (about 1_570_796 microradians), so
/// a clamped pitch is always strictly inside (-pi/2, pi/2) and the view
/// can never flip over the vertical.
pub const PITCH_LIMIT_URAD: i64 = 1_570_696;

} // verus!
