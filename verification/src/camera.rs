//! The fly camera: held movement keys, mouse look, per-frame integration.
//!
//! Positions are micro-units, angles micro-degrees. Pitch is clamped to
//! just short of straight up or down so the look direction never flips
//! over the poles; yaw is folded into one turn, which leaves the look
//! direction unchanged.

use crate::fixed::{mul_div, mul_div_trunc, trunc_div, Vec3, COORD_LIMIT, UNIT};
use crate::mat4::Mat4;
use crate::trig::{cos_udeg, sin_udeg, spec_angle_mod, spec_cos_udeg, spec_sin_udeg, TURN_UDEG};
use vstd::prelude::*;

verus! {

/// Velocity divisor: a held key moves the camera a hundredth of a unit per
/// millisecond, so a step is `direction * dt / VEL_DIV`.
pub const VEL_DIV: i64 = 100;

/// Mouse sensitivity divisor: micro-counts of mouse travel become
/// micro-degrees at a tenth of a degree per count.
pub const SENS_DIV: i64 = 10;

/// Pitch saturates at this magnitude: one degree short of a quarter turn.
pub const PITCH_LIMIT_UDEG: i64 = 89_000_000;

/// The largest mouse delta `mouse_moved` accepts in one call, in
/// micro-counts; it keeps the folded angle arithmetic inside an `i64`.
pub const MAX_LOOK_DELTA: i64 = 1_000_000_000_000;

/// The largest frame time `update` accepts, in milliseconds.
pub const MAX_FRAME_MS: u64 = 1_000_000;

/// One direction a movement key can ask for.
#[derive(Clone, Copy, PartialEq, Eq, Structural, Debug)]
pub enum CameraMovement {
    Front,
    Back,
    Left,
    Right,
    Up,
    Down,
}

/// Which movement keys are currently held, one independent flag each.
#[derive(Clone, Copy, PartialEq, Eq, Structural, Debug)]
pub struct MovementState {
    pub forward: bool,
    pub back: bool,
    pub left: bool,
    pub right: bool,
    pub up: bool,
    pub down: bool,
}

impl MovementState {
    pub open spec fn spec_default() -> MovementState {
        MovementState {
            forward: false,
            back: false,
            left: false,
            right: false,
            up: false,
            down: false,
        }
    }

    /// Some axis has exactly one of its two keys held.
    pub open spec fn spec_moves(self) -> bool {
        (self.forward != self.back) || (self.right != self.left) || (self.up != self.down)
    }

    /// The state with the flag for `movement` set to `held`.
    pub open spec fn spec_with(self, movement: CameraMovement, held: bool) -> MovementState {
        match movement {
            CameraMovement::Front => MovementState { forward: held, ..self },
            CameraMovement::Back => MovementState { back: held, ..self },
            CameraMovement::Left => MovementState { left: held, ..self },
            CameraMovement::Right => MovementState { right: held, ..self },
            CameraMovement::Up => MovementState { up: held, ..self },
            CameraMovement::Down => MovementState { down: held, ..self },
        }
    }

    /// The unit direction the held keys ask for: the signed sum of the
    /// front, right and up vectors, normalized; zero when every axis is
    /// balanced.
    pub open spec fn spec_as_direction(self, front: Vec3, up: Vec3) -> Vec3 {
        if !self.spec_moves() {
            Vec3::spec_zero()
        } else {
            let side = front.spec_cross(up).spec_normalize();
            let t0 = Vec3::spec_zero();
            let t1 = if self.forward {
                t0.spec_plus(front)
            } else {
                t0
            };
            let t2 = if self.back {
                t1.spec_minus(front)
            } else {
                t1
            };
            let t3 = if self.left {
                t2.spec_minus(side)
            } else {
                t2
            };
            let t4 = if self.right {
                t3.spec_plus(side)
            } else {
                t3
            };
            let t5 = if self.up {
                t4.spec_plus(up)
            } else {
                t4
            };
            let t6 = if self.down {
                t5.spec_minus(up)
            } else {
                t5
            };
            t6.spec_normalize()
        }
    }

    /// Whether any movement is asked for at all.
    pub fn moves(&self) -> (r: bool)
        ensures
            r == self.spec_moves(),
    {
        (self.forward != self.back) || (self.right != self.left) || (self.up != self.down)
    }

    pub fn as_direction(&self, front: Vec3, up: Vec3) -> (r: Vec3)
        requires
            front.bounded(UNIT as int),
            up.bounded(UNIT as int),
        ensures
            r == self.spec_as_direction(front, up),
            r.bounded(UNIT as int),
    {
        if !self.moves() {
            return Vec3::zero();
        }
        proof {
            crate::fixed::lemma_cross_bounded(front, up, UNIT as int);
        }
        let side = front.cross(up).normalize();
        let mut t = Vec3::zero();
        if self.forward {
            t = t.plus(front);
        }
        if self.back {
            t = t.minus(front);
        }
        if self.left {
            t = t.minus(side);
        }
        if self.right {
            t = t.plus(side);
        }
        if self.up {
            t = t.plus(up);
        }
        if self.down {
            t = t.minus(up);
        }
        t.normalize()
    }

    pub fn want_move(&mut self, movement: CameraMovement)
        ensures
            *final(self) == old(self).spec_with(movement, true),
    {
        match movement {
            CameraMovement::Front => self.forward = true,
            CameraMovement::Back => self.back = true,
            CameraMovement::Left => self.left = true,
            CameraMovement::Right => self.right = true,
            CameraMovement::Up => self.up = true,
            CameraMovement::Down => self.down = true,
        }
    }

    pub fn stop_move(&mut self, movement: CameraMovement)
        ensures
            *final(self) == old(self).spec_with(movement, false),
    {
        match movement {
            CameraMovement::Front => self.forward = false,
            CameraMovement::Back => self.back = false,
            CameraMovement::Left => self.left = false,
            CameraMovement::Right => self.right = false,
            CameraMovement::Up => self.up = false,
            CameraMovement::Down => self.down = false,
        }
    }
}

impl Default for MovementState {
    fn default() -> (r: MovementState)
        ensures
            r == MovementState::spec_default(),
    {
        MovementState {
            forward: false,
            back: false,
            left: false,
            right: false,
            up: false,
            down: false,
        }
    }
}

/// Balanced keys cancel: when every axis has both or neither of its keys
/// held, nothing moves and the direction is zero — in particular when
/// forward and back are pressed together.
pub proof fn lemma_opposing_flags_cancel(s: MovementState, front: Vec3, up: Vec3)
    requires
        s.forward == s.back,
        s.left == s.right,
        s.up == s.down,
    ensures
        !s.spec_moves(),
        s.spec_as_direction(front, up) == Vec3::spec_zero(),
{
}

/// Holding only Forward moves along the camera's front vector: for an
/// exactly normalized front the direction is front itself.
pub proof fn lemma_forward_moves_along_front(s: MovementState, front: Vec3, up: Vec3)
    requires
        s == (MovementState {
            forward: true,
            back: false,
            left: false,
            right: false,
            up: false,
            down: false,
        }),
        front.spec_normalize() == front,
    ensures
        s.spec_as_direction(front, up) == front,
{
    let t = Vec3::spec_zero().spec_plus(front);
    assert(t == front);
}

/// A coordinate folded back into the world bounds.
pub open spec fn spec_clamp_coord(v: int) -> int {
    if v < -COORD_LIMIT {
        -COORD_LIMIT as int
    } else if v > COORD_LIMIT {
        COORD_LIMIT as int
    } else {
        v
    }
}

/// Pitch saturated at the clamp limit.
pub open spec fn spec_clamp_pitch(p: int) -> int {
    if p < -PITCH_LIMIT_UDEG {
        -PITCH_LIMIT_UDEG as int
    } else if p > PITCH_LIMIT_UDEG {
        PITCH_LIMIT_UDEG as int
    } else {
        p
    }
}

/// The fly camera's full state.
#[derive(Clone, Copy, PartialEq, Eq, Structural, Debug)]
pub struct Camera {
    pub pos: Vec3,
    pub up: Vec3,
    /// Yaw in micro-degrees, folded within one turn of zero.
    pub yaw: i64,
    /// Pitch in micro-degrees, always within the clamp limit.
    pub pitch: i64,
    pub movement_state: MovementState,
}

impl Camera {
    pub open spec fn well_formed(self) -> bool {
        &&& self.pos.bounded(COORD_LIMIT as int)
        &&& self.up.bounded(UNIT as int)
        &&& -TURN_UDEG < self.yaw < TURN_UDEG
        &&& -PITCH_LIMIT_UDEG <= self.pitch <= PITCH_LIMIT_UDEG
    }

    pub open spec fn spec_default() -> Camera {
        Camera {
            pos: Vec3::spec_zero(),
            up: Vec3 { x: 0, y: UNIT as i64, z: 0 },
            yaw: (-90_000_000) as i64,
            pitch: 0,
            movement_state: MovementState::spec_default(),
        }
    }

    /// The look direction for a yaw and pitch in micro-degrees: the unit
    /// vector whose horizontal heading is the yaw and whose elevation is
    /// the pitch.
    pub open spec fn spec_front(yaw: int, pitch: int) -> Vec3 {
        let cy = spec_cos_udeg(yaw);
        let sy = spec_sin_udeg(yaw);
        let cp = spec_cos_udeg(pitch);
        let sp = spec_sin_udeg(pitch);
        (Vec3 {
            x: mul_div_trunc(cy, cp, UNIT as int) as i64,
            y: sp as i64,
            z: mul_div_trunc(sy, cp, UNIT as int) as i64,
        }).spec_normalize()
    }

    /// A camera standing at `pos`, otherwise at its defaults: level pitch,
    /// facing along the negative z axis.
    pub fn from_pos(pos: Vec3) -> (r: Camera)
        requires
            pos.bounded(COORD_LIMIT as int),
        ensures
            r == (Camera { pos, ..Camera::spec_default() }),
            r.well_formed(),
    {
        Camera { pos, ..Default::default() }
    }

    pub fn want_move(&mut self, movement: CameraMovement)
        ensures
            *final(self) == (Camera {
                movement_state: old(self).movement_state.spec_with(movement, true),
                ..*old(self)
            }),
    {
        self.movement_state.want_move(movement);
    }

    pub fn stop_move(&mut self, movement: CameraMovement)
        ensures
            *final(self) == (Camera {
                movement_state: old(self).movement_state.spec_with(movement, false),
                ..*old(self)
            }),
    {
        self.movement_state.stop_move(movement);
    }

    /// The current look direction.
    pub fn front(&self) -> (r: Vec3)
        requires
            self.well_formed(),
        ensures
            r == Camera::spec_front(self.yaw as int, self.pitch as int),
            r.bounded(UNIT as int),
    {
        let cy = cos_udeg(self.yaw);
        let sy = sin_udeg(self.yaw);
        let cp = cos_udeg(self.pitch);
        let sp = sin_udeg(self.pitch);
        proof {
            assert(-i64::MAX <= cy as int * cp as int <= i64::MAX && -i64::MAX <= sy as int
                * cp as int <= i64::MAX) by (nonlinear_arith)
                requires
                    -1_000_000 <= (cy as int) <= 1_000_000,
                    -1_000_000 <= (sy as int) <= 1_000_000,
                    -1_000_000 <= (cp as int) <= 1_000_000;
            crate::fixed::lemma_mul_div_contracts(cy as int, cp as int, UNIT as int, UNIT as int);
            crate::fixed::lemma_mul_div_contracts(sy as int, cp as int, UNIT as int, UNIT as int);
        }
        let x = mul_div(cy, cp, UNIT);
        let z = mul_div(sy, cp, UNIT);
        Vec3 { x, y: sp, z }.normalize()
    }

    /// Where the camera stands after one frame of `dt_ms` milliseconds:
    /// each coordinate steps by the held direction scaled by the elapsed
    /// time and the fixed velocity, then stays inside the world bounds.
    pub open spec fn spec_stepped_pos(self, dt_ms: int) -> Vec3 {
        let dir = self.movement_state.spec_as_direction(
            Camera::spec_front(self.yaw as int, self.pitch as int),
            self.up,
        );
        Vec3 {
            x: spec_clamp_coord(self.pos.x + mul_div_trunc(dir.x as int, dt_ms, VEL_DIV as int))
                as i64,
            y: spec_clamp_coord(self.pos.y + mul_div_trunc(dir.y as int, dt_ms, VEL_DIV as int))
                as i64,
            z: spec_clamp_coord(self.pos.z + mul_div_trunc(dir.z as int, dt_ms, VEL_DIV as int))
                as i64,
        }
    }

    /// Integrates the held movement over the elapsed frame time.
    pub fn update(&mut self, dt_ms: u64)
        requires
            old(self).well_formed(),
            dt_ms <= MAX_FRAME_MS,
        ensures
            *final(self) == (Camera { pos: old(self).spec_stepped_pos(dt_ms as int), ..*old(self) }),
            final(self).well_formed(),
    {
        let front = self.front();
        let dir = self.movement_state.as_direction(front, self.up);
        let sx = step_coord(self.pos.x, dir.x, dt_ms);
        let sy = step_coord(self.pos.y, dir.y, dt_ms);
        let sz = step_coord(self.pos.z, dir.z, dt_ms);
        self.pos = Vec3 { x: sx, y: sy, z: sz };
    }

    /// Applies one mouse movement, in micro-counts: yaw turns a tenth of a
    /// degree per count and folds within one turn; pitch does the same but
    /// saturates at the clamp limit instead of folding.
    pub fn mouse_moved(&mut self, dx: i64, dy: i64)
        requires
            old(self).well_formed(),
            -MAX_LOOK_DELTA <= dx <= MAX_LOOK_DELTA,
            -MAX_LOOK_DELTA <= dy <= MAX_LOOK_DELTA,
        ensures
            *final(self) == (Camera {
                yaw: spec_angle_mod(old(self).yaw + trunc_div(dx as int, SENS_DIV as int)) as i64,
                pitch: spec_clamp_pitch(
                    old(self).pitch + trunc_div(dy as int, SENS_DIV as int),
                ) as i64,
                ..*old(self)
            }),
            -PITCH_LIMIT_UDEG <= final(self).pitch <= PITCH_LIMIT_UDEG,
            final(self).well_formed(),
    {
        let dyaw = crate::fixed::div_trunc(dx, SENS_DIV);
        let dpitch = crate::fixed::div_trunc(dy, SENS_DIV);
        self.yaw = crate::trig::angle_mod(self.yaw + dyaw);
        let p = self.pitch + dpitch;
        self.pitch = if p < -PITCH_LIMIT_UDEG {
            -PITCH_LIMIT_UDEG
        } else if p > PITCH_LIMIT_UDEG {
            PITCH_LIMIT_UDEG
        } else {
            p
        };
    }

    /// The view transform for the current position and look direction.
    pub fn as_view(&self) -> (r: Mat4)
        requires
            self.well_formed(),
        ensures
            r == Mat4::spec_look_to(
                self.pos,
                Camera::spec_front(self.yaw as int, self.pitch as int),
                self.up,
            ),
    {
        let front = self.front();
        Mat4::look_to(self.pos, front, self.up)
    }
}

impl Default for Camera {
    fn default() -> (r: Camera)
        ensures
            r == Camera::spec_default(),
            r.well_formed(),
    {
        Camera {
            pos: Vec3 { x: 0, y: 0, z: 0 },
            up: Vec3 { x: 0, y: UNIT, z: 0 },
            yaw: -90_000_000,
            pitch: 0,
            movement_state: Default::default(),
        }
    }
}

/// One clamped coordinate step.
fn step_coord(pos: i64, dir: i64, dt_ms: u64) -> (r: i64)
    requires
        -COORD_LIMIT <= pos <= COORD_LIMIT,
        -UNIT <= dir <= UNIT,
        dt_ms <= MAX_FRAME_MS,
    ensures
        r == spec_clamp_coord(pos as int + mul_div_trunc(dir as int, dt_ms as int, VEL_DIV as int)),
{
    proof {
        assert(-1_000_000_000_000 <= dir as int * dt_ms as int <= 1_000_000_000_000)
            by (nonlinear_arith)
            requires
                -1_000_000 <= (dir as int) <= 1_000_000,
                0 <= (dt_ms as int) <= 1_000_000;
        crate::fixed::lemma_trunc_div_magnitude(
            dir as int * dt_ms as int,
            VEL_DIV as int,
            1_000_000_000_000,
        );
    }
    let step: i64 = mul_div(dir, dt_ms as i64, VEL_DIV);
    let v: i64 = pos + step;
    if v < -COORD_LIMIT {
        -COORD_LIMIT
    } else if v > COORD_LIMIT {
        COORD_LIMIT
    } else {
        v
    }
}



} // verus!
