//! Shared scene plumbing: the per-frame transform bundle, frame-rate
//! bookkeeping, and renderer control requests.

use crate::fixed::{Vec3, Vec4, UNIT};
use crate::gl::{GlCmd, GlCmdV, GlRecorder, UniformValue};
use crate::mat4::Mat4;
use crate::uniform::{EnabledLighting, UniformKind};
use vstd::prelude::*;

verus! {

/// A world-space position in micro-units.
pub type GlPosition = Vec3;

/// An RGBA color in micro-units (one unit is full intensity).
pub type GlColor = Vec4;

/// What changed this frame among the three scene transforms. A field left
/// unset means "unchanged — do not re-issue that GPU uniform".
#[derive(Clone, Copy, PartialEq, Debug)]
pub struct Mat3DUpdate {
    pub model: Option<Mat4>,
    pub view: Option<Mat4>,
    pub projection: Option<Mat4>,
}

impl Mat3DUpdate {
    pub open spec fn spec_default() -> Mat3DUpdate {
        Mat3DUpdate { model: None, view: None, projection: None }
    }

    /// The bundle with every unset field resolved to the identity: update
    /// semantics turned into initialization semantics.
    pub open spec fn spec_as_init(self) -> Mat3DUpdate {
        Mat3DUpdate {
            model: Some(
                match self.model {
                    Some(m) => m,
                    None => Mat4::spec_identity(),
                },
            ),
            view: Some(
                match self.view {
                    Some(m) => m,
                    None => Mat4::spec_identity(),
                },
            ),
            projection: Some(
                match self.projection {
                    Some(m) => m,
                    None => Mat4::spec_identity(),
                },
            ),
        }
    }

    /// The uniform writes `set_uniforms` records: one per set field, none
    /// for an unset field.
    pub open spec fn spec_set_cmds(self, program: u32) -> Seq<GlCmdV> {
        (match self.model {
            Some(m) => seq![
                GlCmdV::SetUniform { program, name: "model", value: UniformValue::M4(m) },
            ],
            None => Seq::<GlCmdV>::empty(),
        }) + (match self.view {
            Some(m) => seq![
                GlCmdV::SetUniform { program, name: "view", value: UniformValue::M4(m) },
            ],
            None => Seq::<GlCmdV>::empty(),
        }) + (match self.projection {
            Some(m) => seq![
                GlCmdV::SetUniform { program, name: "projection", value: UniformValue::M4(m) },
            ],
            None => Seq::<GlCmdV>::empty(),
        })
    }

    /// The startup bundle for a window: identity model, a view backed away
    /// one and a half units, and the perspective projection for the
    /// window's aspect ratio with near and far planes at a tenth of a unit
    /// and a hundred units.
    pub fn default_from_dimensions(width: u32, height: u32) -> (r: Mat3DUpdate)
        requires
            width >= 1,
            1 <= height <= width as int * UNIT,
        ensures
            r == (Mat3DUpdate {
                model: Some(Mat4::spec_identity()),
                view: Some(
                    Mat4::spec_from_translation(
                        Vec3 { x: 0, y: 0, z: (-3 * (UNIT as int / 2)) as i64 },
                    ),
                ),
                projection: Some(
                    Mat4::spec_perspective(
                        width as int,
                        height as int,
                        UNIT as int / 10,
                        100 * UNIT as int,
                    ),
                ),
            }),
    {
        Mat3DUpdate {
            model: Some(Mat4::identity()),
            view: Some(Mat4::from_translation(Vec3 { x: 0, y: 0, z: -3 * (UNIT / 2) })),
            projection: Some(Mat4::perspective(width, height, UNIT / 10, 100 * UNIT)),
        }
    }

    /// Resolves every unset field to the identity.
    pub fn as_init(self) -> (r: Mat3DUpdate)
        ensures
            r == self.spec_as_init(),
    {
        Mat3DUpdate {
            model: Some(
                match self.model {
                    Some(m) => m,
                    None => Mat4::identity(),
                },
            ),
            view: Some(
                match self.view {
                    Some(m) => m,
                    None => Mat4::identity(),
                },
            ),
            projection: Some(
                match self.projection {
                    Some(m) => m,
                    None => Mat4::identity(),
                },
            ),
        }
    }

    /// Records one uniform write per set field. The program must already
    /// be the active one.
    pub fn set_uniforms(&self, rec: &mut GlRecorder, program: u32)
        ensures
            final (rec).views() == old(rec).views() + self.spec_set_cmds(program),
            final (rec).next_id == old(rec).next_id,
    {
        if let Some(m) = self.model {
            rec.record(GlCmd::SetUniform { program, name: "model", value: UniformValue::M4(m) });
        }
        if let Some(m) = self.view {
            rec.record(GlCmd::SetUniform { program, name: "view", value: UniformValue::M4(m) });
        }
        if let Some(m) = self.projection {
            rec.record(GlCmd::SetUniform {
                program,
                name: "projection",
                value: UniformValue::M4(m),
            });
        }
        proof {
            assert(rec.views() =~= old(rec).views() + self.spec_set_cmds(program));
        }
    }

    /// Whether any field is set at all.
    pub fn has_some(&self) -> (r: bool)
        ensures
            r == (self.model is Some || self.projection is Some || self.view is Some),
    {
        self.model.is_some() || self.projection.is_some() || self.view.is_some()
    }
}

/// Filling a bundle turns update semantics into initialization semantics:
/// every field of the result is set; an unset field becomes the identity
/// and a set field passes through unchanged.
pub proof fn lemma_as_init_fills_identity(u: Mat3DUpdate)
    ensures
        u.spec_as_init().model is Some,
        u.spec_as_init().view is Some,
        u.spec_as_init().projection is Some,
        u.model is None ==> u.spec_as_init().model == Some(Mat4::spec_identity()),
        u.view is None ==> u.spec_as_init().view == Some(Mat4::spec_identity()),
        u.projection is None ==> u.spec_as_init().projection == Some(Mat4::spec_identity()),
        u.model is Some ==> u.spec_as_init().model == u.model,
        u.view is Some ==> u.spec_as_init().view == u.view,
        u.projection is Some ==> u.spec_as_init().projection == u.projection,
{
}

/// Counts frames and reports the rate once a second of frame time has
/// accumulated.
#[derive(Clone, Copy, PartialEq, Eq, Structural, Debug)]
pub struct FpsCounter {
    /// Frame time accumulated in the current window, in milliseconds.
    pub acc_ms: u64,
    /// Frames seen in the current window.
    pub frames: u32,
}

impl FpsCounter {
    /// Accounts one frame of `dt_ms` milliseconds. Once the window holds a
    /// full second it reports the rate over the window, in milliframes per
    /// second, and starts a new window; otherwise it reports nothing.
    pub fn tick(&mut self, dt_ms: u64) -> (r: Option<u64>)
        requires
            old(self).acc_ms + dt_ms <= u64::MAX,
            old(self).frames < u32::MAX,
        ensures
            ({
                let acc = old(self).acc_ms + dt_ms;
                let frames = old(self).frames + 1;
                if acc >= 1000 {
                    &&& r == Some((frames * 1_000_000 / acc) as u64)
                    &&& *final (self) == (FpsCounter { acc_ms: 0, frames: 0 })
                } else {
                    &&& r is None
                    &&& *final (self) == (FpsCounter { acc_ms: acc as u64, frames: frames as u32 })
                }
            }),
    {
        self.acc_ms = self.acc_ms + dt_ms;
        self.frames = self.frames + 1;
        if self.acc_ms >= 1000 {
            proof {
                assert(self.frames as int * 1_000_000 <= 0xFFFF_FFFF * 1_000_000)
                    by (nonlinear_arith)
                    requires
                        0 <= (self.frames as int) <= 0xFFFF_FFFF;
                vstd::arithmetic::div_mod::lemma_div_pos_is_pos(
                    self.frames as int * 1_000_000,
                    self.acc_ms as int,
                );
                vstd::arithmetic::div_mod::lemma_div_is_ordered_by_denominator(
                    self.frames as int * 1_000_000,
                    1,
                    self.acc_ms as int,
                );
                vstd::arithmetic::div_mod::lemma_div_basics_2(self.frames as int * 1_000_000);
            }
            let rate: u64 = (self.frames as u64) * 1_000_000 / self.acc_ms;
            self.acc_ms = 0;
            self.frames = 0;
            Some(rate)
        } else {
            None
        }
    }
}

impl Default for FpsCounter {
    fn default() -> (r: FpsCounter)
        ensures
            r == (FpsCounter { acc_ms: 0, frames: 0 }),
    {
        FpsCounter { acc_ms: 0, frames: 0 }
    }
}

/// A renderer-level request raised by a control key.
#[derive(Clone, Copy, PartialEq, Eq, Structural, Debug)]
pub enum RendererControl {
    EnableLight,
    DisableLight,
    EnableFog,
    DisableFog,
}

impl RendererControl {
    /// The uniform that carries this request to the shaders on the next
    /// frame. The fog switches have no uniform yet and yield nothing.
    pub fn to_uniform(&self) -> (r: Option<UniformKind>)
        ensures
            *self is EnableLight ==> r == Some(
                UniformKind::EnabledLighting(EnabledLighting { enabled: true }),
            ),
            *self is DisableLight ==> r == Some(
                UniformKind::EnabledLighting(EnabledLighting { enabled: false }),
            ),
            *self is EnableFog || *self is DisableFog ==> r is None,
    {
        match self {
            RendererControl::EnableLight => Some(
                UniformKind::EnabledLighting(EnabledLighting::enabled()),
            ),
            RendererControl::DisableLight => Some(
                UniformKind::EnabledLighting(Default::default()),
            ),
            RendererControl::EnableFog => None,
            RendererControl::DisableFog => None,
        }
    }
}

} // verus!
