//! Per-frame orchestration: the owned context of world, player and
//! controller, the dispatch of raw input events, the two phases of the
//! per-tick update (movement, then the targeting ray once the new look
//! direction is known), and the policy applied to a frame-submission
//! fault. Submitting the frame itself is the shell's work.

use vstd::prelude::*;
use crate::camera::camera_resized;
use crate::player::CameraController;
use crate::player::Key;
use crate::player::Player;
use crate::player::consume_model;
use crate::player::feed_model;
use crate::player::intent_of;
use crate::player::key_applied;
use crate::player::key_handled;
use crate::player::speed_dt;
use crate::player::stepped;
use crate::player::DT_LIMIT;
use crate::player::MOUSE_COORD_LIMIT;
use crate::player::POS_LIMIT;
use crate::player::YAW_LIMIT;
use crate::world::GridCoord;
use crate::world::World;
use crate::FP_ONE;

verus! {

/// Number of unit steps the targeting ray marches.
pub const RAY_STEPS: usize = 8;

/// Largest camera position magnitude the targeting ray accepts, fixed
/// point; small enough that every rounded sample fits a grid
/// coordinate and large enough to follow any position one movement
/// update can reach from the movement limit.
pub const ORIGIN_LIMIT: i64 = 2_100_000_000_000_000;

/// Nearest integer to a fixed-point value, ties rounded away from
/// zero.
pub open spec fn round_fp(v: int) -> int {
    if v >= 0 {
        (v + (FP_ONE as int) / 2) / (FP_ONE as int)
    } else {
        -((-v + (FP_ONE as int) / 2) / (FP_ONE as int))
    }
}

/// The grid coordinate sampled k unit steps along the look direction:
/// the ray point rounded to the nearest integer on each axis.
pub open spec fn ray_sample(
    ox: int,
    oy: int,
    oz: int,
    fx: int,
    fy: int,
    fz: int,
    k: int,
) -> GridCoord {
    GridCoord {
        x: round_fp(ox + k * fx) as i32,
        y: round_fp(oy + k * fy) as i32,
        z: round_fp(oz + k * fz) as i32,
    }
}

fn round_to_coord(v: i64) -> (r: i32)
    requires
        -2_140_000_000_000_000 <= v <= 2_140_000_000_000_000,
    ensures
        r as int == round_fp(v as int),
{
    if v >= 0 {
        let q: u64 = ((v as u64) + 500_000) / 1_000_000;
        proof {
            vstd::arithmetic::div_mod::lemma_div_is_ordered(
                v as int + 500_000,
                2_140_000_000_500_000,
                1_000_000,
            );
            assert(q <= 2_140_000_000);
        }
        q as i32
    } else {
        let q: u64 = (((-v) as u64) + 500_000) / 1_000_000;
        proof {
            vstd::arithmetic::div_mod::lemma_div_is_ordered(
                (-(v as int)) + 500_000,
                2_140_000_000_500_000,
                1_000_000,
            );
            assert(q <= 2_140_000_000);
        }
        -(q as i32)
    }
}

/// A raw input event as the shell hands it over: a key transition or
/// an absolute pointer position in device pixels.
#[derive(Clone, Copy, PartialEq, Eq, Structural, Debug)]
pub enum InputEvent {
    Keyboard { key: Key, pressed: bool },
    MouseMove { x: i64, y: i64 },
}

/// How the run loop reacts to a frame-submission fault.
#[derive(Clone, Copy, PartialEq, Eq, Structural, Debug)]
pub enum FrameAction {
    /// Transient: reconfigure the surface with the last known size and
    /// retry next tick.
    Reconfigure,
    /// Resource exhaustion: fatal, terminate the run loop.
    Exit,
    /// Soft: log, drop this frame, continue normally.
    SkipFrame,
}

/// A frame-submission fault as the graphics boundary reports it.
#[derive(Clone, Copy, PartialEq, Eq, Structural, Debug)]
pub enum SurfaceFault {
    Lost,
    Outdated,
    OutOfMemory,
    Timeout,
}

/// The policy of the run loop for each fault kind.
pub open spec fn fault_action_spec(fault: SurfaceFault) -> FrameAction {
    match fault {
        SurfaceFault::Lost => FrameAction::Reconfigure,
        SurfaceFault::Outdated => FrameAction::Reconfigure,
        SurfaceFault::OutOfMemory => FrameAction::Exit,
        SurfaceFault::Timeout => FrameAction::SkipFrame,
    }
}

/// Decide how to react to a frame-submission fault: surface loss or
/// staleness is retried after a reconfigure, memory exhaustion ends
/// the run loop, a timeout only skips the frame.
pub fn fault_action(fault: SurfaceFault) -> (action: FrameAction)
    ensures
        action == fault_action_spec(fault),
{
    match fault {
        SurfaceFault::Lost => FrameAction::Reconfigure,
        SurfaceFault::Outdated => FrameAction::Reconfigure,
        SurfaceFault::OutOfMemory => FrameAction::Exit,
        SurfaceFault::Timeout => FrameAction::SkipFrame,
    }
}

/// The sample the targeting ray takes at step k, for a state's player
/// position and a look direction.
pub open spec fn state_sample(pre: State, fx: int, fy: int, fz: int, k: int) -> GridCoord {
    ray_sample(
        pre.player.px as int,
        pre.player.py as int,
        pre.player.pz as int,
        fx,
        fy,
        fz,
        k,
    )
}

/// What one targeting pass leaves behind: either the first sampled
/// coordinate that held a block was destroyed and nothing else
/// changed, or no sample held a block and the world is untouched.
pub open spec fn targeting_post(
    pre: State,
    post: State,
    fx: int,
    fy: int,
    fz: int,
    destroyed: Option<GridCoord>,
) -> bool {
    match destroyed {
        Some(c) => exists|k: int|
            1 <= k <= RAY_STEPS as int && c == #[trigger] state_sample(pre, fx, fy, fz, k)
                && pre.world@.contains_key(c) && (forall|j: int|
                1 <= j < k ==> !pre.world@.contains_key(
                    #[trigger] state_sample(pre, fx, fy, fz, j),
                )) && post.world@ == pre.world@.remove(c) && post.world.size() + 1
                == pre.world.size(),
        None => (forall|k: int|
            1 <= k <= RAY_STEPS as int ==> !pre.world@.contains_key(
                #[trigger] state_sample(pre, fx, fy, fz, k),
            )) && post.world@ == pre.world@ && post.world.size() == pre.world.size(),
    }
}

/// The explicitly owned context of the run loop: the world, the player
/// aggregate and the input accumulator, all mutated only by the single
/// control-loop thread.
pub struct State {
    pub world: World,
    pub player: Player,
    pub camera_controller: CameraController,
}

impl State {
    pub fn new(world: World, player: Player, camera_controller: CameraController) -> (s: State)
        ensures
            s.world == world,
            s.player == player,
            s.camera_controller == camera_controller,
    {
        State { world, player, camera_controller }
    }

    /// Dispatch one raw input event: key transitions update the
    /// directional flags, pointer positions feed the smoothing window.
    /// Returns whether the event was consumed.
    pub fn input(&mut self, event: InputEvent) -> (handled: bool)
        requires
            old(self).camera_controller.wf(),
            event matches InputEvent::MouseMove { x, y } ==> -MOUSE_COORD_LIMIT <= x
                <= MOUSE_COORD_LIMIT && -MOUSE_COORD_LIMIT <= y <= MOUSE_COORD_LIMIT,
        ensures
            final(self).world == old(self).world,
            final(self).player == old(self).player,
            final(self).camera_controller.wf(),
            match event {
                InputEvent::Keyboard { key, pressed } => final(self).camera_controller@
                    == key_applied(old(self).camera_controller@, key, pressed) && handled
                    == key_handled(key),
                InputEvent::MouseMove { x, y } => final(self).camera_controller@ == feed_model(
                    old(self).camera_controller@,
                    x,
                    y,
                ) && handled,
            },
    {
        match event {
            InputEvent::Keyboard { key, pressed } => self.camera_controller.process_keyboard(
                key,
                pressed,
            ),
            InputEvent::MouseMove { x, y } => {
                self.camera_controller.process_mouse(x, y);
                true
            }
        }
    }

    /// Forward new surface dimensions to the camera; a degenerate size
    /// (zero width or height) is ignored, as when a window is
    /// minimized.
    pub fn resize(&mut self, width: u32, height: u32)
        ensures
            final(self).world == old(self).world,
            final(self).camera_controller == old(self).camera_controller,
            width >= 1 && height >= 1 ==> final(self).player == (Player {
                camera: camera_resized(old(self).player.camera, width, height),
                ..old(self).player
            }),
            !(width >= 1 && height >= 1) ==> final(self).player == old(self).player,
    {
        if width >= 1 && height >= 1 {
            self.player.camera_mut().resize(width, height);
        }
    }

    /// Steps one to three of the per-tick algorithm: consume the
    /// accumulated input into a velocity intent, translate the player
    /// along the yaw bases, rotate with the pitch clamped, and record
    /// the new camera pose. The caller passes the sine and cosine of
    /// the current yaw, fixed point; the targeting step follows once
    /// the new look direction has been evaluated.
    pub fn update_movement(&mut self, dt_micros: i64, yaw_sin_fp: i64, yaw_cos_fp: i64)
        requires
            old(self).player.wf(),
            old(self).camera_controller.wf(),
            0 <= dt_micros <= DT_LIMIT,
            -FP_ONE <= yaw_sin_fp <= FP_ONE,
            -FP_ONE <= yaw_cos_fp <= FP_ONE,
            -POS_LIMIT <= old(self).player.px <= POS_LIMIT,
            -POS_LIMIT <= old(self).player.py <= POS_LIMIT,
            -POS_LIMIT <= old(self).player.pz <= POS_LIMIT,
            -YAW_LIMIT <= old(self).player.yaw_urad <= YAW_LIMIT,
        ensures
            final(self).world == old(self).world,
            final(self).player.wf(),
            final(self).camera_controller.wf(),
            final(self).camera_controller@ == consume_model(old(self).camera_controller@),
            final(self).player == stepped(
                old(self).player,
                intent_of(old(self).camera_controller@, dt_micros as int),
                speed_dt(old(self).camera_controller@.speed, dt_micros as int),
                yaw_sin_fp as int,
                yaw_cos_fp as int,
            ),
    {
        self.player.update(&mut self.camera_controller, dt_micros, yaw_sin_fp, yaw_cos_fp);
    }

    /// Step four of the per-tick algorithm, the targeting ray: starting
    /// at the player position, march a fixed number of unit steps along
    /// the normalized look direction (passed fixed point), round each
    /// sampled point to the nearest grid coordinate, and destroy the
    /// first present block. At most one destruction per tick; first
    /// hit wins; no hit leaves the world untouched.
    #[verifier::loop_isolation(false)]
    pub fn update_targeting(&mut self, fwd_x_fp: i64, fwd_y_fp: i64, fwd_z_fp: i64) -> (destroyed:
        Option<GridCoord>)
        requires
            old(self).world.wf(),
            -ORIGIN_LIMIT <= old(self).player.px <= ORIGIN_LIMIT,
            -ORIGIN_LIMIT <= old(self).player.py <= ORIGIN_LIMIT,
            -ORIGIN_LIMIT <= old(self).player.pz <= ORIGIN_LIMIT,
            -FP_ONE <= fwd_x_fp <= FP_ONE,
            -FP_ONE <= fwd_y_fp <= FP_ONE,
            -FP_ONE <= fwd_z_fp <= FP_ONE,
        ensures
            final(self).player == old(self).player,
            final(self).camera_controller == old(self).camera_controller,
            final(self).world.wf(),
            targeting_post(
                *old(self),
                *final(self),
                fwd_x_fp as int,
                fwd_y_fp as int,
                fwd_z_fp as int,
                destroyed,
            ),
    {
        let ox = self.player.px;
        let oy = self.player.py;
        let oz = self.player.pz;
        let mut rx = ox;
        let mut ry = oy;
        let mut rz = oz;
        let mut k: usize = 0;
        while k < RAY_STEPS
            invariant
                k <= RAY_STEPS,
                rx as int == ox + (k as int) * fwd_x_fp,
                ry as int == oy + (k as int) * fwd_y_fp,
                rz as int == oz + (k as int) * fwd_z_fp,
                -ORIGIN_LIMIT - (k as int) * FP_ONE <= rx <= ORIGIN_LIMIT + (k as int) * FP_ONE,
                -ORIGIN_LIMIT - (k as int) * FP_ONE <= ry <= ORIGIN_LIMIT + (k as int) * FP_ONE,
                -ORIGIN_LIMIT - (k as int) * FP_ONE <= rz <= ORIGIN_LIMIT + (k as int) * FP_ONE,
                forall|j: int|
                    1 <= j <= k as int ==> !self.world@.contains_key(
                        #[trigger] ray_sample(
                            ox as int,
                            oy as int,
                            oz as int,
                            fwd_x_fp as int,
                            fwd_y_fp as int,
                            fwd_z_fp as int,
                            j,
                        ),
                    ),
                *self == *old(self),
            decreases RAY_STEPS - k,
        {
            proof {
                assert(((k as int) + 1) * fwd_x_fp == (k as int) * fwd_x_fp + fwd_x_fp)
                    by (nonlinear_arith);
                assert(((k as int) + 1) * fwd_y_fp == (k as int) * fwd_y_fp + fwd_y_fp)
                    by (nonlinear_arith);
                assert(((k as int) + 1) * fwd_z_fp == (k as int) * fwd_z_fp + fwd_z_fp)
                    by (nonlinear_arith);
            }
            rx = rx + fwd_x_fp;
            ry = ry + fwd_y_fp;
            rz = rz + fwd_z_fp;
            k = k + 1;
            let coord = GridCoord {
                x: round_to_coord(rx),
                y: round_to_coord(ry),
                z: round_to_coord(rz),
            };
            proof {
                assert(coord == ray_sample(
                    ox as int,
                    oy as int,
                    oz as int,
                    fwd_x_fp as int,
                    fwd_y_fp as int,
                    fwd_z_fp as int,
                    k as int,
                ));
            }
            if self.world.contains(coord) {
                proof {
                    assert(coord == state_sample(
                        *old(self),
                        fwd_x_fp as int,
                        fwd_y_fp as int,
                        fwd_z_fp as int,
                        k as int,
                    ));
                    assert forall|j: int| 1 <= j < k as int implies !old(self).world@.contains_key(
                        #[trigger] state_sample(
                            *old(self),
                            fwd_x_fp as int,
                            fwd_y_fp as int,
                            fwd_z_fp as int,
                            j,
                        ),
                    ) by {
                        assert(state_sample(*old(self), fwd_x_fp as int, fwd_y_fp as int,
                            fwd_z_fp as int, j) == ray_sample(ox as int, oy as int, oz as int,
                            fwd_x_fp as int, fwd_y_fp as int, fwd_z_fp as int, j));
                    }
                }
                self.world.destroy(coord);
                return Some(coord);
            }
        }
        proof {
            assert forall|k2: int| 1 <= k2 <= RAY_STEPS as int implies !old(self).world@.contains_key(
                #[trigger] state_sample(
                    *old(self),
                    fwd_x_fp as int,
                    fwd_y_fp as int,
                    fwd_z_fp as int,
                    k2,
                ),
            ) by {
                assert(state_sample(*old(self), fwd_x_fp as int, fwd_y_fp as int, fwd_z_fp as int,
                    k2) == ray_sample(ox as int, oy as int, oz as int, fwd_x_fp as int,
                    fwd_y_fp as int, fwd_z_fp as int, k2));
            }
        }
        None
    }
}

} // verus!
