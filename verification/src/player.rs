//! The player: camera pose state (position, yaw, pitch) advanced once
//! per frame from accumulated input, and the camera controller that
//! smooths raw keyboard and mouse events into a per-frame velocity
//! intent. Mouse smoothing is a fixed-size moving average over the
//! most recent raw pointer samples, not raw deltas: the rotation delta
//! is the difference between the current window sum and the window sum
//! at the previous consume.
//!
//! Angles are microradians, positions and speeds fixed point. The
//! caller supplies the sine and cosine of the current yaw as fixed
//! point values, since evaluating trigonometry is floating-point work
//! that lives in the shell.

use vstd::prelude::*;
use crate::camera::Camera;
use crate::camera::posed;
use crate::FP_ONE;
use crate::PITCH_LIMIT_URAD;

verus! {

/// Number of mouse samples in the smoothing window.
pub const MOUSE_HISTORY_LEN: usize = 10;

/// Largest magnitude of a pointer sample coordinate the smoother
/// accepts, in device pixels.
pub const MOUSE_COORD_LIMIT: i64 = 1_000_000;

/// Largest movement speed, fixed point world units per second.
pub const SPEED_LIMIT: i64 = 1_000_000_000;

/// Largest rotation sensitivity, fixed point.
pub const SENS_LIMIT: i64 = 100_000_000;

/// Longest frame duration an update accepts, in microseconds.
pub const DT_LIMIT: i64 = 10_000_000;

/// Largest camera position magnitude an update accepts, fixed point.
pub const POS_LIMIT: i64 = 2_000_000_000_000_000;

/// Largest yaw magnitude an update accepts, microradians.
pub const YAW_LIMIT: i64 = 1_000_000_000_000;

/// Divisor of the rotation scaling: window length times one fixed
/// point unit of sensitivity times one fixed point unit of seconds.
pub const ROT_DENOM: i64 = 10_000_000_000_000;

/// Largest rotation delta one consume can produce, microradians.
pub const ROT_STEP_LIMIT: i64 = 2_100_000_000;

/// Largest translation delta one update can apply to one axis, fixed
/// point.
pub const MOVE_STEP_LIMIT: i64 = 20_000_000_000;

/// The keys the controller understands; anything else is unbound and
/// left to the shell.
#[derive(Clone, Copy, PartialEq, Eq, Structural, Debug)]
pub enum Key {
    W,
    A,
    S,
    D,
    Up,
    Down,
    Left,
    Right,
    Space,
    LShift,
    Unbound,
}

/// Per-frame motion intent yielded by a consume: axis scalars in
/// [-1, 1] (positive minus negative flag) and rotation deltas in
/// microradians, already scaled by sensitivity and frame time.
#[derive(Clone, Copy, PartialEq, Eq, Structural, Debug)]
pub struct PlayerVelocityIntent {
    pub forward: i64,
    pub right: i64,
    pub up: i64,
    pub yaw_delta_urad: i64,
    pub pitch_delta_urad: i64,
}

/// Mathematical model of the controller: six directional flags, the
/// ring buffer of pointer samples with its write index, the window
/// sums at the previous consume, and the two tuning constants.
pub ghost struct ControllerModel {
    pub forward: bool,
    pub backward: bool,
    pub left: bool,
    pub right: bool,
    pub up: bool,
    pub down: bool,
    pub history: Seq<(i64, i64)>,
    pub index: int,
    pub last_sum_x: int,
    pub last_sum_y: int,
    pub speed: int,
    pub sensitivity: int,
}

/// Sum of the x coordinates of the window.
pub open spec fn sum_x(s: Seq<(i64, i64)>) -> int
    decreases s.len(),
{
    if s.len() == 0 {
        0
    } else {
        sum_x(s.drop_last()) + s.last().0
    }
}

/// Sum of the y coordinates of the window.
pub open spec fn sum_y(s: Seq<(i64, i64)>) -> int
    decreases s.len(),
{
    if s.len() == 0 {
        0
    } else {
        sum_y(s.drop_last()) + s.last().1
    }
}

/// 1 for a held flag, 0 for a released one.
pub open spec fn axis(b: bool) -> int {
    if b {
        1
    } else {
        0
    }
}

/// The model after one pointer sample: the sample overwrites the
/// oldest slot and the write index advances cyclically.
pub open spec fn feed_model(m: ControllerModel, x: i64, y: i64) -> ControllerModel {
    ControllerModel {
        history: m.history.update(m.index, (x, y)),
        index: (m.index + 1) % (MOUSE_HISTORY_LEN as int),
        ..m
    }
}

/// The model after a consume: only the remembered window sums change
/// (the rotation delta is reset); directional flags persist.
pub open spec fn consume_model(m: ControllerModel) -> ControllerModel {
    ControllerModel { last_sum_x: sum_x(m.history), last_sum_y: sum_y(m.history), ..m }
}

/// Rotation delta in microradians for a window-sum difference: the
/// difference of window averages (hence the window length in the
/// divisor) scaled by sensitivity and frame seconds, rounded toward
/// zero.
pub open spec fn rot_scaled(num: int, sens: int, dt: int) -> int {
    if num >= 0 {
        (num * sens * dt) / (ROT_DENOM as int)
    } else {
        -((-num * sens * dt) / (ROT_DENOM as int))
    }
}

/// The velocity intent a consume yields from a model: axis scalars as
/// positive minus negative flag, rotation deltas from the window-sum
/// movement since the previous consume. Moving the pointer right
/// turns yaw positive; moving it down turns pitch negative.
pub open spec fn intent_of(m: ControllerModel, dt: int) -> PlayerVelocityIntent {
    PlayerVelocityIntent {
        forward: (axis(m.forward) - axis(m.backward)) as i64,
        right: (axis(m.right) - axis(m.left)) as i64,
        up: (axis(m.up) - axis(m.down)) as i64,
        yaw_delta_urad: rot_scaled(sum_x(m.history) - m.last_sum_x, m.sensitivity, dt) as i64,
        pitch_delta_urad: (-rot_scaled(
            sum_y(m.history) - m.last_sum_y,
            m.sensitivity,
            dt,
        )) as i64,
    }
}

/// The controller a key event leaves behind: each bound key sets or
/// clears one directional flag, last write wins; an unbound key
/// changes nothing.
pub open spec fn key_applied(m: ControllerModel, key: Key, pressed: bool) -> ControllerModel {
    match key {
        Key::W | Key::Up => ControllerModel { forward: pressed, ..m },
        Key::S | Key::Down => ControllerModel { backward: pressed, ..m },
        Key::A | Key::Left => ControllerModel { left: pressed, ..m },
        Key::D | Key::Right => ControllerModel { right: pressed, ..m },
        Key::Space => ControllerModel { up: pressed, ..m },
        Key::LShift => ControllerModel { down: pressed, ..m },
        Key::Unbound => m,
    }
}

/// Whether the controller reacts to the key at all.
pub open spec fn key_handled(key: Key) -> bool {
    !(key is Unbound)
}

/// Accumulates discrete key events and continuous pointer samples
/// between frame ticks. Consumed once per frame by the player update;
/// consuming clears only the rotation state, directional flags persist
/// until the matching release event.
pub struct CameraController {
    pub amount_forward: bool,
    pub amount_backward: bool,
    pub amount_left: bool,
    pub amount_right: bool,
    pub amount_up: bool,
    pub amount_down: bool,
    pub mouse_position_history: Vec<(i64, i64)>,
    pub mouse_position_history_index: usize,
    pub last_mouse_sum_x: i64,
    pub last_mouse_sum_y: i64,
    pub speed_fp: i64,
    pub sensitivity_fp: i64,
}

impl View for CameraController {
    type V = ControllerModel;

    open spec fn view(&self) -> ControllerModel {
        ControllerModel {
            forward: self.amount_forward,
            backward: self.amount_backward,
            left: self.amount_left,
            right: self.amount_right,
            up: self.amount_up,
            down: self.amount_down,
            history: self.mouse_position_history@,
            index: self.mouse_position_history_index as int,
            last_sum_x: self.last_mouse_sum_x as int,
            last_sum_y: self.last_mouse_sum_y as int,
            speed: self.speed_fp as int,
            sensitivity: self.sensitivity_fp as int,
        }
    }
}

/// A pointer sample the smoother can hold.
pub open spec fn sample_in_range(s: (i64, i64)) -> bool {
    -MOUSE_COORD_LIMIT <= s.0 <= MOUSE_COORD_LIMIT && -MOUSE_COORD_LIMIT <= s.1
        <= MOUSE_COORD_LIMIT
}

impl CameraController {
    /// The window has its fixed length, the write index is inside it,
    /// every sample and both remembered sums are in range, and the
    /// tuning constants are nonnegative and bounded.
    pub open spec fn wf(&self) -> bool {
        &&& self.mouse_position_history@.len() == MOUSE_HISTORY_LEN
        &&& self.mouse_position_history_index < MOUSE_HISTORY_LEN
        &&& forall|i: int|
            0 <= i < self.mouse_position_history@.len() ==> sample_in_range(
                #[trigger] self.mouse_position_history@[i],
            )
        &&& -(10 * MOUSE_COORD_LIMIT) <= self.last_mouse_sum_x <= 10 * MOUSE_COORD_LIMIT
        &&& -(10 * MOUSE_COORD_LIMIT) <= self.last_mouse_sum_y <= 10 * MOUSE_COORD_LIMIT
        &&& 0 <= self.speed_fp <= SPEED_LIMIT
        &&& 0 <= self.sensitivity_fp <= SENS_LIMIT
    }

    /// A fresh controller: no held keys, a zeroed window, and the
    /// given speed and sensitivity (fixed point).
    pub fn new(speed_fp: i64, sensitivity_fp: i64) -> (c: CameraController)
        requires
            0 <= speed_fp <= SPEED_LIMIT,
            0 <= sensitivity_fp <= SENS_LIMIT,
        ensures
            c.wf(),
            !c.amount_forward && !c.amount_backward && !c.amount_left && !c.amount_right
                && !c.amount_up && !c.amount_down,
            forall|i: int|
                0 <= i < c.mouse_position_history@.len() ==> #[trigger] c.mouse_position_history@[i]
                    == (0i64, 0i64),
            c.mouse_position_history_index == 0,
            c.last_mouse_sum_x == 0 && c.last_mouse_sum_y == 0,
            c.speed_fp == speed_fp,
            c.sensitivity_fp == sensitivity_fp,
    {
        let mut history: Vec<(i64, i64)> = Vec::new();
        let mut i: usize = 0;
        #[verifier::loop_isolation(false)]
        while i < MOUSE_HISTORY_LEN
            invariant
                i <= MOUSE_HISTORY_LEN,
                history@.len() == i,
                forall|j: int| 0 <= j < i ==> #[trigger] history@[j] == (0i64, 0i64),
            decreases MOUSE_HISTORY_LEN - i,
        {
            history.push((0i64, 0i64));
            i = i + 1;
        }
        CameraController {
            amount_forward: false,
            amount_backward: false,
            amount_left: false,
            amount_right: false,
            amount_up: false,
            amount_down: false,
            mouse_position_history: history,
            mouse_position_history_index: 0,
            last_mouse_sum_x: 0,
            last_mouse_sum_y: 0,
            speed_fp,
            sensitivity_fp,
        }
    }

    /// Apply a key press or release: each bound key sets or clears one
    /// directional flag, last write wins, no queuing. Returns whether
    /// the key was handled.
    pub fn process_keyboard(&mut self, key: Key, pressed: bool) -> (handled: bool)
        ensures
            final(self)@ == key_applied(old(self)@, key, pressed),
            handled == key_handled(key),
            old(self).wf() ==> final(self).wf(),
    {
        match key {
            Key::W | Key::Up => {
                self.amount_forward = pressed;
                true
            }
            Key::S | Key::Down => {
                self.amount_backward = pressed;
                true
            }
            Key::A | Key::Left => {
                self.amount_left = pressed;
                true
            }
            Key::D | Key::Right => {
                self.amount_right = pressed;
                true
            }
            Key::Space => {
                self.amount_up = pressed;
                true
            }
            Key::LShift => {
                self.amount_down = pressed;
                true
            }
            Key::Unbound => false,
        }
    }

    /// Push an absolute pointer position into the smoothing window,
    /// overwriting the oldest sample.
    pub fn process_mouse(&mut self, x: i64, y: i64)
        requires
            old(self).wf(),
            -MOUSE_COORD_LIMIT <= x <= MOUSE_COORD_LIMIT,
            -MOUSE_COORD_LIMIT <= y <= MOUSE_COORD_LIMIT,
        ensures
            final(self).wf(),
            final(self)@ == feed_model(old(self)@, x, y),
    {
        let i = self.mouse_position_history_index;
        self.mouse_position_history.set(i, (x, y));
        self.mouse_position_history_index = (i + 1) % MOUSE_HISTORY_LEN;
    }

    /// Yield the frame's velocity intent and reset the rotation state:
    /// the remembered window sums become the current ones, so the next
    /// consume reports only pointer movement seen after this one.
    /// Directional flags persist.
    #[verifier::loop_isolation(false)]
    pub fn consume(&mut self, dt_micros: i64) -> (intent: PlayerVelocityIntent)
        requires
            old(self).wf(),
            0 <= dt_micros <= DT_LIMIT,
        ensures
            final(self).wf(),
            final(self)@ == consume_model(old(self)@),
            intent == intent_of(old(self)@, dt_micros as int),
            -1 <= intent.forward <= 1,
            -1 <= intent.right <= 1,
            -1 <= intent.up <= 1,
            -ROT_STEP_LIMIT <= intent.yaw_delta_urad <= ROT_STEP_LIMIT,
            -ROT_STEP_LIMIT <= intent.pitch_delta_urad <= ROT_STEP_LIMIT,
    {
        let n = self.mouse_position_history.len();
        let mut sx: i64 = 0;
        let mut sy: i64 = 0;
        let mut i: usize = 0;
        while i < n
            invariant
                i <= n,
                sx == sum_x(self.mouse_position_history@.subrange(0, i as int)),
                sy == sum_y(self.mouse_position_history@.subrange(0, i as int)),
                -(i as int) * MOUSE_COORD_LIMIT <= sx <= (i as int) * MOUSE_COORD_LIMIT,
                -(i as int) * MOUSE_COORD_LIMIT <= sy <= (i as int) * MOUSE_COORD_LIMIT,
            decreases n - i,
        {
            let s = self.mouse_position_history[i];
            proof {
                let h = self.mouse_position_history@;
                assert(h.subrange(0, i as int + 1).drop_last() =~= h.subrange(0, i as int));
                assert(h.subrange(0, i as int + 1).last() == h[i as int]);
            }
            sx = sx + s.0;
            sy = sy + s.1;
            i = i + 1;
        }
        proof {
            assert(self.mouse_position_history@.subrange(0, n as int)
                =~= self.mouse_position_history@);
        }
        let num_x = sx - self.last_mouse_sum_x;
        let num_y = sy - self.last_mouse_sum_y;
        let yaw_delta = rot_scale(num_x, self.sensitivity_fp, dt_micros);
        let pitch_raw = rot_scale(num_y, self.sensitivity_fp, dt_micros);
        self.last_mouse_sum_x = sx;
        self.last_mouse_sum_y = sy;
        let fwd: i64 = (if self.amount_forward { 1i64 } else { 0i64 }) - (if self.amount_backward {
            1i64
        } else {
            0i64
        });
        let rgt: i64 = (if self.amount_right { 1i64 } else { 0i64 }) - (if self.amount_left {
            1i64
        } else {
            0i64
        });
        let upw: i64 = (if self.amount_up { 1i64 } else { 0i64 }) - (if self.amount_down {
            1i64
        } else {
            0i64
        });
        PlayerVelocityIntent {
            forward: fwd,
            right: rgt,
            up: upw,
            yaw_delta_urad: yaw_delta,
            pitch_delta_urad: -pitch_raw,
        }
    }
}

/// Rotation scaling in execution: sign-split so the division is on
/// nonnegative numbers, with a wide intermediate product.
fn rot_scale(num: i64, sens: i64, dt: i64) -> (r: i64)
    requires
        -(20 * MOUSE_COORD_LIMIT) <= num <= 20 * MOUSE_COORD_LIMIT,
        0 <= sens <= SENS_LIMIT,
        0 <= dt <= DT_LIMIT,
    ensures
        r == rot_scaled(num as int, sens as int, dt as int),
        -ROT_STEP_LIMIT <= r <= ROT_STEP_LIMIT,
{
    let mag: u64 = if num >= 0 {
        num as u64
    } else {
        (-num) as u64
    };
    proof {
        assert((mag as int) * (sens as int) <= 20_000_000 * 100_000_000) by (nonlinear_arith)
            requires
                0 <= mag as int <= 20_000_000,
                0 <= sens as int <= 100_000_000,
        ;
        assert((mag as int) * (sens as int) >= 0) by (nonlinear_arith)
            requires
                0 <= mag as int,
                0 <= sens as int,
        ;
    }
    let prod1: u128 = (mag as u128) * (sens as u128);
    proof {
        assert((prod1 as int) * (dt as int) <= 2_000_000_000_000_000 * 10_000_000)
            by (nonlinear_arith)
            requires
                0 <= prod1 as int <= 2_000_000_000_000_000,
                0 <= dt as int <= 10_000_000,
        ;
        assert((prod1 as int) * (dt as int) >= 0) by (nonlinear_arith)
            requires
                0 <= prod1 as int,
                0 <= dt as int,
        ;
    }
    let prod: u128 = prod1 * (dt as u128);
    let q: u128 = prod / (ROT_DENOM as u128);
    proof {
        vstd::arithmetic::div_mod::lemma_div_is_ordered(
            prod as int,
            20_000_000_000_000_000_000_000,
            ROT_DENOM as int,
        );
        assert(q <= 2_000_000_000);
        assert((mag as int) * (sens as int) * (dt as int) == prod as int);
    }
    if num >= 0 {
        q as i64
    } else {
        -(q as i64)
    }
}

/// Translation scaling in execution: a bounded factor (trigonometric
/// value times axis scalar) times the distance covered this frame,
/// brought back to fixed point, rounding toward zero.
pub open spec fn scaled(a: int, b: int) -> int {
    if a >= 0 {
        (a * b) / (FP_ONE as int)
    } else {
        -((-a * b) / (FP_ONE as int))
    }
}

fn scale_move(a: i64, b: i64) -> (r: i64)
    requires
        -(2 * FP_ONE) <= a <= 2 * FP_ONE,
        0 <= b <= 10_000_000_000,
    ensures
        r == scaled(a as int, b as int),
        -MOVE_STEP_LIMIT <= r <= MOVE_STEP_LIMIT,
{
    let mag: u64 = if a >= 0 {
        a as u64
    } else {
        (-a) as u64
    };
    proof {
        assert((mag as int) * (b as int) <= 2_000_000 * 10_000_000_000) by (nonlinear_arith)
            requires
                0 <= mag as int <= 2_000_000,
                0 <= b as int <= 10_000_000_000,
        ;
        assert((mag as int) * (b as int) >= 0) by (nonlinear_arith)
            requires
                0 <= mag as int,
                0 <= b as int,
        ;
    }
    let prod: u64 = mag * (b as u64);
    let q: u64 = prod / (FP_ONE as u64);
    proof {
        vstd::arithmetic::div_mod::lemma_div_is_ordered(
            prod as int,
            20_000_000_000_000_000,
            FP_ONE as int,
        );
        assert(q <= 20_000_000_000);
    }
    if a >= 0 {
        q as i64
    } else {
        -(q as i64)
    }
}

/// Distance covered in one frame at a given speed, fixed point: speed
/// times frame seconds.
pub open spec fn speed_dt(speed: int, dt: int) -> int {
    (speed * dt) / (FP_ONE as int)
}

fn speed_dt_exec(speed: i64, dt: i64) -> (r: i64)
    requires
        0 <= speed <= SPEED_LIMIT,
        0 <= dt <= DT_LIMIT,
    ensures
        r == speed_dt(speed as int, dt as int),
        0 <= r <= 10_000_000_000,
{
    proof {
        assert((speed as int) * (dt as int) <= 1_000_000_000 * 10_000_000) by (nonlinear_arith)
            requires
                0 <= speed as int <= 1_000_000_000,
                0 <= dt as int <= 10_000_000,
        ;
        assert((speed as int) * (dt as int) >= 0) by (nonlinear_arith)
            requires
                0 <= speed as int,
                0 <= dt as int,
        ;
    }
    let prod: u64 = (speed as u64) * (dt as u64);
    let q: u64 = prod / (FP_ONE as u64);
    proof {
        vstd::arithmetic::div_mod::lemma_div_is_ordered(
            prod as int,
            10_000_000_000_000_000,
            FP_ONE as int,
        );
        assert(q <= 10_000_000_000);
    }
    q as i64
}

/// A pitch brought back inside the limit.
pub open spec fn clamp_pitch(v: int) -> int {
    if v < -(PITCH_LIMIT_URAD as int) {
        -(PITCH_LIMIT_URAD as int)
    } else if v > PITCH_LIMIT_URAD as int {
        PITCH_LIMIT_URAD as int
    } else {
        v
    }
}

/// The player after one frame: moved by the axis intent along
/// the yaw bases (pitch does not affect horizontal movement; vertical
/// movement adjusts the height directly), then rotation with the pitch
/// clamped, then the camera pose recorded from the new state.
pub open spec fn stepped(
    p: Player,
    intent: PlayerVelocityIntent,
    sdt: int,
    yaw_sin: int,
    yaw_cos: int,
) -> Player {
    let nx = p.px + scaled(yaw_cos * intent.forward - yaw_sin * intent.right, sdt);
    let ny = p.py + intent.up * sdt;
    let nz = p.pz + scaled(yaw_sin * intent.forward + yaw_cos * intent.right, sdt);
    let nyaw = p.yaw_urad + intent.yaw_delta_urad;
    let npitch = clamp_pitch(p.pitch_urad + intent.pitch_delta_urad);
    Player {
        px: nx as i64,
        py: ny as i64,
        pz: nz as i64,
        yaw_urad: nyaw as i64,
        pitch_urad: npitch as i64,
        camera: posed(p.camera, nx as i64, ny as i64, nz as i64, npitch as i64, nyaw as i64),
    }
}

/// The player aggregate: camera position (fixed point), yaw and pitch
/// (microradians), and the owned camera. The pitch is always within
/// the limit; the yaw is unclamped and wraps only through the
/// trigonometry evaluated by the shell.
pub struct Player {
    pub px: i64,
    pub py: i64,
    pub pz: i64,
    pub yaw_urad: i64,
    pub pitch_urad: i64,
    pub camera: Camera,
}

impl Player {
    /// The pitch respects its clamp.
    pub open spec fn wf(&self) -> bool {
        -PITCH_LIMIT_URAD <= self.pitch_urad <= PITCH_LIMIT_URAD
    }

    pub fn new(px: i64, py: i64, pz: i64, yaw_urad: i64, pitch_urad: i64, camera: Camera) -> (p:
        Player)
        requires
            -PITCH_LIMIT_URAD <= pitch_urad <= PITCH_LIMIT_URAD,
        ensures
            p == (Player { px, py, pz, yaw_urad, pitch_urad, camera }),
            p.wf(),
    {
        Player { px, py, pz, yaw_urad, pitch_urad, camera }
    }

    /// Yaw in microradians.
    pub fn yaw(&self) -> (r: i64)
        ensures
            r == self.yaw_urad,
    {
        self.yaw_urad
    }

    /// Pitch in microradians.
    pub fn pitch(&self) -> (r: i64)
        ensures
            r == self.pitch_urad,
    {
        self.pitch_urad
    }

    pub fn camera(&self) -> (r: &Camera)
        ensures
            r == self.camera,
    {
        &self.camera
    }

    pub fn camera_mut(&mut self) -> (r: &mut Camera)
        ensures
            *r == old(self).camera,
            final(self).camera == *final(r),
            final(self).px == old(self).px,
            final(self).py == old(self).py,
            final(self).pz == old(self).pz,
            final(self).yaw_urad == old(self).yaw_urad,
            final(self).pitch_urad == old(self).pitch_urad,
    {
        &mut self.camera
    }

    /// Advance the player one frame: consume the controller into a
    /// velocity intent, translate along the yaw bases (the caller
    /// passes the sine and cosine of the current yaw, fixed point),
    /// rotate with the pitch clamped, and record the new pose on the
    /// camera.
    pub fn update(
        &mut self,
        inputs: &mut CameraController,
        dt_micros: i64,
        yaw_sin_fp: i64,
        yaw_cos_fp: i64,
    )
        requires
            old(self).wf(),
            old(inputs).wf(),
            0 <= dt_micros <= DT_LIMIT,
            -FP_ONE <= yaw_sin_fp <= FP_ONE,
            -FP_ONE <= yaw_cos_fp <= FP_ONE,
            -POS_LIMIT <= old(self).px <= POS_LIMIT,
            -POS_LIMIT <= old(self).py <= POS_LIMIT,
            -POS_LIMIT <= old(self).pz <= POS_LIMIT,
            -YAW_LIMIT <= old(self).yaw_urad <= YAW_LIMIT,
        ensures
            final(self).wf(),
            final(inputs).wf(),
            final(inputs)@ == consume_model(old(inputs)@),
            *final(self) == stepped(
                *old(self),
                intent_of(old(inputs)@, dt_micros as int),
                speed_dt(old(inputs)@.speed, dt_micros as int),
                yaw_sin_fp as int,
                yaw_cos_fp as int,
            ),
            -POS_LIMIT - MOVE_STEP_LIMIT <= final(self).px <= POS_LIMIT + MOVE_STEP_LIMIT,
            -POS_LIMIT - MOVE_STEP_LIMIT <= final(self).py <= POS_LIMIT + MOVE_STEP_LIMIT,
            -POS_LIMIT - MOVE_STEP_LIMIT <= final(self).pz <= POS_LIMIT + MOVE_STEP_LIMIT,
            -YAW_LIMIT - ROT_STEP_LIMIT <= final(self).yaw_urad <= YAW_LIMIT + ROT_STEP_LIMIT,
    {
        let speed = inputs.speed_fp;
        let intent = inputs.consume(dt_micros);
        let sdt = speed_dt_exec(speed, dt_micros);
        proof {
            assert(-1_000_000 <= yaw_cos_fp * intent.forward <= 1_000_000) by (nonlinear_arith)
                requires
                    -1_000_000 <= yaw_cos_fp <= 1_000_000,
                    -1 <= intent.forward <= 1,
            ;
            assert(-1_000_000 <= yaw_sin_fp * intent.right <= 1_000_000) by (nonlinear_arith)
                requires
                    -1_000_000 <= yaw_sin_fp <= 1_000_000,
                    -1 <= intent.right <= 1,
            ;
            assert(-1_000_000 <= yaw_sin_fp * intent.forward <= 1_000_000) by (nonlinear_arith)
                requires
                    -1_000_000 <= yaw_sin_fp <= 1_000_000,
                    -1 <= intent.forward <= 1,
            ;
            assert(-1_000_000 <= yaw_cos_fp * intent.right <= 1_000_000) by (nonlinear_arith)
                requires
                    -1_000_000 <= yaw_cos_fp <= 1_000_000,
                    -1 <= intent.right <= 1,
            ;
            assert(-10_000_000_000 <= intent.up * sdt <= 10_000_000_000) by (nonlinear_arith)
                requires
                    -1 <= intent.up <= 1,
                    0 <= sdt <= 10_000_000_000,
            ;
        }
        let ax = yaw_cos_fp * intent.forward - yaw_sin_fp * intent.right;
        let az = yaw_sin_fp * intent.forward + yaw_cos_fp * intent.right;
        let dx = scale_move(ax, sdt);
        let dz = scale_move(az, sdt);
        self.px = self.px + dx;
        self.py = self.py + intent.up * sdt;
        self.pz = self.pz + dz;
        self.yaw_urad = self.yaw_urad + intent.yaw_delta_urad;
        let pitch_raw = self.pitch_urad + intent.pitch_delta_urad;
        self.pitch_urad = if pitch_raw < -PITCH_LIMIT_URAD {
            -PITCH_LIMIT_URAD
        } else if pitch_raw > PITCH_LIMIT_URAD {
            PITCH_LIMIT_URAD
        } else {
            pitch_raw
        };
        self.camera.update(self.px, self.py, self.pz, self.pitch_urad, self.yaw_urad);
    }
}

/// The pitch after a whole run of rotation deltas, each applied with
/// the clamp, exactly as one update per frame applies them.
pub open spec fn pitch_after(p0: int, deltas: Seq<int>) -> int
    decreases deltas.len(),
{
    if deltas.len() == 0 {
        p0
    } else {
        clamp_pitch(pitch_after(p0, deltas.drop_last()) + deltas.last())
    }
}

/// The pitch is always clamped: from any in-range pitch, any sequence
/// of pitch deltas leaves the pitch within the limit, which lies
/// strictly inside (-pi/2, pi/2).
pub proof fn lemma_pitch_always_clamped(p0: int, deltas: Seq<int>)
    requires
        -PITCH_LIMIT_URAD <= p0 <= PITCH_LIMIT_URAD,
    ensures
        -PITCH_LIMIT_URAD <= pitch_after(p0, deltas) <= PITCH_LIMIT_URAD,
    decreases deltas.len(),
{
    if deltas.len() > 0 {
        lemma_pitch_always_clamped(p0, deltas.drop_last());
    }
}

/// The model after a run of identical pointer samples.
pub open spec fn feed_n(m: ControllerModel, x: i64, y: i64, n: nat) -> ControllerModel
    decreases n,
{
    if n == 0 {
        m
    } else {
        feed_model(feed_n(m, x, y, (n - 1) as nat), x, y)
    }
}

/// Structural health of a model: window length and index in range.
pub open spec fn model_wf(m: ControllerModel) -> bool {
    m.history.len() == MOUSE_HISTORY_LEN && 0 <= m.index < MOUSE_HISTORY_LEN as int
}

/// Every sample of the window equals the given one.
pub open spec fn uniform_history(m: ControllerModel, x: i64, y: i64) -> bool {
    forall|i: int| 0 <= i < m.history.len() ==> #[trigger] m.history[i] == (x, y)
}

/// The slot j steps after the write index, wrapping around the window.
pub open spec fn wrapped(idx: int, j: int) -> int {
    (idx + j) % (MOUSE_HISTORY_LEN as int)
}

proof fn lemma_feed_window(m: ControllerModel, x: i64, y: i64, n: nat)
    requires
        model_wf(m),
    ensures
        model_wf(feed_n(m, x, y, n)),
        feed_n(m, x, y, n).index == wrapped(m.index, n as int),
        forall|j: int|
            0 <= j < n && j < MOUSE_HISTORY_LEN ==> feed_n(m, x, y, n).history[#[trigger] wrapped(
                m.index,
                j,
            )] == (x, y),
        feed_n(m, x, y, n).forward == m.forward,
        feed_n(m, x, y, n).backward == m.backward,
        feed_n(m, x, y, n).left == m.left,
        feed_n(m, x, y, n).right == m.right,
        feed_n(m, x, y, n).up == m.up,
        feed_n(m, x, y, n).down == m.down,
        feed_n(m, x, y, n).last_sum_x == m.last_sum_x,
        feed_n(m, x, y, n).last_sum_y == m.last_sum_y,
        feed_n(m, x, y, n).speed == m.speed,
        feed_n(m, x, y, n).sensitivity == m.sensitivity,
    decreases n,
{
    if n > 0 {
        lemma_feed_window(m, x, y, (n - 1) as nat);
        let m1 = feed_n(m, x, y, (n - 1) as nat);
        vstd::arithmetic::div_mod::lemma_add_mod_noop(
            m.index + n - 1,
            1,
            MOUSE_HISTORY_LEN as int,
        );
        assert(m1.index == (m.index + n - 1) % 10);
        assert((m1.index + 1) % 10 == (m.index + n) % 10);
        assert forall|j: int|
            0 <= j < n && j < MOUSE_HISTORY_LEN implies feed_n(m, x, y, n).history[
            #[trigger] wrapped(m.index, j)] == (x, y) by {
            if j == n - 1 {
                assert(wrapped(m.index, j) == m1.index);
            } else {
                assert(m1.history[wrapped(m.index, j)] == (x, y));
            }
        }
    }
}

/// Feeding a full window of one repeated pointer position makes the
/// whole window hold that position.
pub proof fn lemma_feed_fills_window(m: ControllerModel, x: i64, y: i64, n: nat)
    requires
        model_wf(m),
        n >= MOUSE_HISTORY_LEN,
    ensures
        model_wf(feed_n(m, x, y, n)),
        uniform_history(feed_n(m, x, y, n), x, y),
        feed_n(m, x, y, n).last_sum_x == m.last_sum_x,
        feed_n(m, x, y, n).last_sum_y == m.last_sum_y,
{
    lemma_feed_window(m, x, y, n);
    let m2 = feed_n(m, x, y, n);
    assert forall|i: int| 0 <= i < m2.history.len() implies #[trigger] m2.history[i] == (x, y) by {
        let j: int = if i >= m.index {
            i - m.index
        } else {
            i + 10 - m.index
        };
        assert(0 <= j < 10);
        assert(m.index + j == i || m.index + j == i + 10);
        assert(wrapped(m.index, j) == i) by {
            if m.index + j == i {
                assert(i % 10 == i);
            } else {
                assert((i + 10) % 10 == i % 10) by {
                    vstd::arithmetic::div_mod::lemma_add_mod_noop(i, 10, 10);
                }
                assert(i % 10 == i);
            }
        }
        assert(m2.history[wrapped(m.index, j)] == (x, y));
    }
}

proof fn lemma_sum_uniform(s: Seq<(i64, i64)>, x: i64, y: i64)
    requires
        forall|i: int| 0 <= i < s.len() ==> #[trigger] s[i] == (x, y),
    ensures
        sum_x(s) == s.len() * x,
        sum_y(s) == s.len() * y,
    decreases s.len(),
{
    if s.len() > 0 {
        let pre = s.drop_last();
        assert(forall|i: int| 0 <= i < pre.len() ==> #[trigger] pre[i] == (x, y));
        lemma_sum_uniform(pre, x, y);
        assert((s.len() - 1) * x + x == s.len() * x) by (nonlinear_arith);
        assert((s.len() - 1) * y + y == s.len() * y) by (nonlinear_arith);
    }
}

proof fn lemma_feed_keeps_uniform(m: ControllerModel, x: i64, y: i64, n: nat)
    requires
        model_wf(m),
        uniform_history(m, x, y),
    ensures
        model_wf(feed_n(m, x, y, n)),
        uniform_history(feed_n(m, x, y, n), x, y),
        feed_n(m, x, y, n).last_sum_x == m.last_sum_x,
        feed_n(m, x, y, n).last_sum_y == m.last_sum_y,
    decreases n,
{
    if n > 0 {
        lemma_feed_keeps_uniform(m, x, y, (n - 1) as nat);
    }
}

/// Input smoothing settles on a still pointer: once the smoother has
/// seen a full window of one repeated pointer position and consumed,
/// feeding any further run of that same position yields a zero
/// rotation delta on the next consume.
pub proof fn lemma_smoothing_settles(
    m: ControllerModel,
    x: i64,
    y: i64,
    n: nat,
    n2: nat,
    dt: int,
)
    requires
        model_wf(m),
        n >= MOUSE_HISTORY_LEN,
    ensures
        ({
            let settled = feed_n(consume_model(feed_n(m, x, y, n)), x, y, n2);
            intent_of(settled, dt).yaw_delta_urad == 0 && intent_of(settled, dt).pitch_delta_urad
                == 0
        }),
{
    let m1 = feed_n(m, x, y, n);
    lemma_feed_fills_window(m, x, y, n);
    let c1 = consume_model(m1);
    assert(model_wf(c1));
    assert(uniform_history(c1, x, y));
    let m2 = feed_n(c1, x, y, n2);
    lemma_feed_keeps_uniform(c1, x, y, n2);
    lemma_sum_uniform(m1.history, x, y);
    lemma_sum_uniform(m2.history, x, y);
    assert(c1.last_sum_x == 10 * x);
    assert(m2.last_sum_x == 10 * x);
    assert(sum_x(m2.history) == 10 * x);
    assert(sum_x(m2.history) - m2.last_sum_x == 0);
    assert(sum_y(m2.history) - m2.last_sum_y == 0);
    assert(rot_scaled(0, m2.sensitivity, dt) == 0) by {
        assert(0 * m2.sensitivity == 0) by (nonlinear_arith);
        assert(0 * dt == 0) by (nonlinear_arith);
        assert(0int / (ROT_DENOM as int) == 0);
    }
}

} // verus!
