//! Shader uniforms: named values an entity pushes into its program.
//!
//! Applying a uniform records one `SetUniform` write per name it carries.
//! A name the target program does not declare is ignored on the GPU side,
//! so any batch may be applied to any program; and a write is a plain
//! store, so applying the same uniform twice leaves exactly the state of
//! applying it once ([`lemma_uniform_set_idempotent`]).

use crate::fixed::{Vec3, UNIT};
use crate::gl::{spec_apply_cmd, spec_apply_cmds, GlCmd, GlCmdV, GlRecorder, UniformStore, UniformValue};
use vstd::prelude::*;

verus! {

pub type ShaderProgram = u32;

/// A value that knows how to push itself into a program's named uniforms.
/// The program must already be the active one; the caller sees to that.
pub trait Uniform {
    /// Exactly the writes one `set` records.
    spec fn spec_set_cmds(&self, program: ShaderProgram) -> Seq<GlCmdV>;

    fn set(&self, rec: &mut GlRecorder, program: ShaderProgram)
        ensures
            final (rec).views() == old(rec).views() + self.spec_set_cmds(program),
            final (rec).next_id == old(rec).next_id,
    ;
}

/// Distance fog: where it starts, where it saturates, and its color.
#[derive(Clone, Copy, PartialEq, Eq, Structural, Debug)]
pub struct Fog {
    pub fog_near: i64,
    pub fog_far: i64,
    pub fog_color: Vec3,
}

impl Fog {
    /// Fog from one unit to fifty units out, in the clear color so distant
    /// geometry fades into the background.
    pub fn new(clear_color: Vec3) -> (r: Fog)
        ensures
            r == (Fog { fog_near: UNIT as i64, fog_far: (50 * UNIT) as i64, fog_color: clear_color }),
    {
        Fog { fog_near: UNIT, fog_far: 50 * UNIT, fog_color: clear_color }
    }

    pub open spec fn spec_cmds(self, program: ShaderProgram) -> Seq<GlCmdV> {
        seq![
            GlCmdV::SetUniform { program, name: "uFogNear", value: UniformValue::F(self.fog_near) },
            GlCmdV::SetUniform { program, name: "uFogFar", value: UniformValue::F(self.fog_far) },
            GlCmdV::SetUniform {
                program,
                name: "uFogColor",
                value: UniformValue::V3(self.fog_color),
            },
        ]
    }

    /// Records the fog writes for `program`.
    pub fn set_uniforms(&self, rec: &mut GlRecorder, program: ShaderProgram)
        ensures
            final (rec).views() == old(rec).views() + self.spec_cmds(program),
            final (rec).next_id == old(rec).next_id,
    {
        rec.record(GlCmd::SetUniform {
            program,
            name: "uFogNear",
            value: UniformValue::F(self.fog_near),
        });
        rec.record(GlCmd::SetUniform {
            program,
            name: "uFogFar",
            value: UniformValue::F(self.fog_far),
        });
        rec.record(GlCmd::SetUniform {
            program,
            name: "uFogColor",
            value: UniformValue::V3(self.fog_color),
        });
        proof {
            assert(rec.views() =~= old(rec).views() + self.spec_cmds(program));
        }
    }
}

impl Uniform for Fog {
    open spec fn spec_set_cmds(&self, program: ShaderProgram) -> Seq<GlCmdV> {
        self.spec_cmds(program)
    }

    fn set(&self, rec: &mut GlRecorder, program: ShaderProgram) {
        self.set_uniforms(rec, program);
    }
}

/// Phong lighting coefficients.
#[derive(Clone, Copy, PartialEq, Eq, Structural, Debug)]
pub struct Lighting {
    pub ambient_strenght: i64,
    pub specular_strenght: i64,
}

impl Lighting {
    /// A tenth ambient, half specular.
    pub fn new() -> (r: Lighting)
        ensures
            r == (Lighting {
                ambient_strenght: (UNIT / 10) as i64,
                specular_strenght: (UNIT / 2) as i64,
            }),
    {
        Lighting { ambient_strenght: UNIT / 10, specular_strenght: UNIT / 2 }
    }

    pub open spec fn spec_cmds(self, program: ShaderProgram) -> Seq<GlCmdV> {
        seq![
            GlCmdV::SetUniform {
                program,
                name: "uAmbientStrenght",
                value: UniformValue::F(self.ambient_strenght),
            },
            GlCmdV::SetUniform {
                program,
                name: "uSpecularStrength",
                value: UniformValue::F(self.specular_strenght),
            },
        ]
    }

    /// Records the lighting writes for `program`.
    pub fn set_uniforms(&self, rec: &mut GlRecorder, program: ShaderProgram)
        ensures
            final (rec).views() == old(rec).views() + self.spec_cmds(program),
            final (rec).next_id == old(rec).next_id,
    {
        rec.record(GlCmd::SetUniform {
            program,
            name: "uAmbientStrenght",
            value: UniformValue::F(self.ambient_strenght),
        });
        rec.record(GlCmd::SetUniform {
            program,
            name: "uSpecularStrength",
            value: UniformValue::F(self.specular_strenght),
        });
        proof {
            assert(rec.views() =~= old(rec).views() + self.spec_cmds(program));
        }
    }
}

impl Uniform for Lighting {
    open spec fn spec_set_cmds(&self, program: ShaderProgram) -> Seq<GlCmdV> {
        self.spec_cmds(program)
    }

    fn set(&self, rec: &mut GlRecorder, program: ShaderProgram) {
        self.set_uniforms(rec, program);
    }
}

/// The light's world position.
#[derive(Clone, Copy, PartialEq, Eq, Structural, Debug)]
pub struct LightPos {
    pub pos: Vec3,
}

impl LightPos {
    pub fn new(pos: Vec3) -> (r: LightPos)
        ensures
            r == (LightPos { pos }),
    {
        LightPos { pos }
    }

    pub open spec fn spec_cmds(self, program: ShaderProgram) -> Seq<GlCmdV> {
        seq![
            GlCmdV::SetUniform { program, name: "uLightPos", value: UniformValue::V3(self.pos) },
        ]
    }

    /// Records the light-position write for `program`.
    pub fn set_uniforms(&self, rec: &mut GlRecorder, program: ShaderProgram)
        ensures
            final (rec).views() == old(rec).views() + self.spec_cmds(program),
            final (rec).next_id == old(rec).next_id,
    {
        rec.record(GlCmd::SetUniform {
            program,
            name: "uLightPos",
            value: UniformValue::V3(self.pos),
        });
        proof {
            assert(rec.views() =~= old(rec).views() + self.spec_cmds(program));
        }
    }
}

impl Uniform for LightPos {
    open spec fn spec_set_cmds(&self, program: ShaderProgram) -> Seq<GlCmdV> {
        self.spec_cmds(program)
    }

    fn set(&self, rec: &mut GlRecorder, program: ShaderProgram) {
        self.set_uniforms(rec, program);
    }
}

/// The eye's (camera's) world position.
#[derive(Clone, Copy, PartialEq, Eq, Structural, Debug)]
pub struct EyePos {
    pub pos: Vec3,
}

impl EyePos {
    pub fn new(pos: Vec3) -> (r: EyePos)
        ensures
            r == (EyePos { pos }),
    {
        EyePos { pos }
    }

    pub open spec fn spec_cmds(self, program: ShaderProgram) -> Seq<GlCmdV> {
        seq![
            GlCmdV::SetUniform { program, name: "uEyePos", value: UniformValue::V3(self.pos) },
        ]
    }

    /// Records the eye-position write for `program`.
    pub fn set_uniforms(&self, rec: &mut GlRecorder, program: ShaderProgram)
        ensures
            final (rec).views() == old(rec).views() + self.spec_cmds(program),
            final (rec).next_id == old(rec).next_id,
    {
        rec.record(GlCmd::SetUniform {
            program,
            name: "uEyePos",
            value: UniformValue::V3(self.pos),
        });
        proof {
            assert(rec.views() =~= old(rec).views() + self.spec_cmds(program));
        }
    }
}

impl Uniform for EyePos {
    open spec fn spec_set_cmds(&self, program: ShaderProgram) -> Seq<GlCmdV> {
        self.spec_cmds(program)
    }

    fn set(&self, rec: &mut GlRecorder, program: ShaderProgram) {
        self.set_uniforms(rec, program);
    }
}

/// The lighting on/off toggle, driving a flag uniform: one when enabled,
/// zero when not.
#[derive(Clone, Copy, PartialEq, Eq, Structural, Debug)]
pub struct EnabledLighting {
    pub enabled: bool,
}

impl EnabledLighting {
    /// The toggle in its on state.
    pub fn enabled() -> (r: EnabledLighting)
        ensures
            r == (EnabledLighting { enabled: true }),
    {
        EnabledLighting { enabled: true }
    }

    pub open spec fn spec_cmds(self, program: ShaderProgram) -> Seq<GlCmdV> {
        seq![
            GlCmdV::SetUniform {
                program,
                name: "uEnabledLighting",
                value: UniformValue::F(
                    if self.enabled {
                        UNIT as i64
                    } else {
                        0
                    },
                ),
            },
        ]
    }

    /// Records the toggle write for `program`.
    pub fn set_uniforms(&self, rec: &mut GlRecorder, program: ShaderProgram)
        ensures
            final (rec).views() == old(rec).views() + self.spec_cmds(program),
            final (rec).next_id == old(rec).next_id,
    {
        let v: i64 = if self.enabled {
            UNIT
        } else {
            0
        };
        rec.record(GlCmd::SetUniform { program, name: "uEnabledLighting", value: UniformValue::F(v) });
        proof {
            assert(rec.views() =~= old(rec).views() + self.spec_cmds(program));
        }
    }
}

impl Default for EnabledLighting {
    /// The toggle in its off state.
    fn default() -> (r: EnabledLighting)
        ensures
            r == (EnabledLighting { enabled: false }),
    {
        EnabledLighting { enabled: false }
    }
}

impl Uniform for EnabledLighting {
    open spec fn spec_set_cmds(&self, program: ShaderProgram) -> Seq<GlCmdV> {
        self.spec_cmds(program)
    }

    fn set(&self, rec: &mut GlRecorder, program: ShaderProgram) {
        self.set_uniforms(rec, program);
    }
}

/// The closed set of uniform variants a frame can carry, so frames can
/// hold them in one collection.
#[derive(Clone, Copy, PartialEq, Eq, Structural, Debug)]
pub enum UniformKind {
    Fog(Fog),
    Lighting(Lighting),
    LightPos(LightPos),
    EyePos(EyePos),
    EnabledLighting(EnabledLighting),
}

impl Uniform for UniformKind {
    open spec fn spec_set_cmds(&self, program: ShaderProgram) -> Seq<GlCmdV> {
        match *self {
            UniformKind::Fog(u) => u.spec_cmds(program),
            UniformKind::Lighting(u) => u.spec_cmds(program),
            UniformKind::LightPos(u) => u.spec_cmds(program),
            UniformKind::EyePos(u) => u.spec_cmds(program),
            UniformKind::EnabledLighting(u) => u.spec_cmds(program),
        }
    }

    fn set(&self, rec: &mut GlRecorder, program: ShaderProgram) {
        match self {
            UniformKind::Fog(u) => u.set_uniforms(rec, program),
            UniformKind::Lighting(u) => u.set_uniforms(rec, program),
            UniformKind::LightPos(u) => u.set_uniforms(rec, program),
            UniformKind::EyePos(u) => u.set_uniforms(rec, program),
            UniformKind::EnabledLighting(u) => u.set_uniforms(rec, program),
        }
    }
}

/// The writes of a whole uniform batch, in order.
pub open spec fn spec_uniforms_cmds(us: Seq<UniformKind>, program: ShaderProgram) -> Seq<GlCmdV>
    decreases us.len(),
{
    if us.len() == 0 {
        Seq::empty()
    } else {
        us[0].spec_set_cmds(program) + spec_uniforms_cmds(us.subrange(1, us.len() as int), program)
    }
}

/// Extending a batch appends that uniform's writes.
pub proof fn lemma_uniforms_cmds_push(us: Seq<UniformKind>, u: UniformKind, program: ShaderProgram)
    ensures
        spec_uniforms_cmds(us.push(u), program) == spec_uniforms_cmds(us, program)
            + u.spec_set_cmds(program),
    decreases us.len(),
{
    let p = us.push(u);
    if us.len() == 0 {
        assert(p[0] == u);
        assert(p.subrange(1, p.len() as int) =~= Seq::<UniformKind>::empty());
        assert(spec_uniforms_cmds(Seq::<UniformKind>::empty(), program) == Seq::<GlCmdV>::empty());
        assert(u.spec_set_cmds(program) + Seq::<GlCmdV>::empty() =~= u.spec_set_cmds(program));
        assert(spec_uniforms_cmds(us, program) + u.spec_set_cmds(program) =~= u.spec_set_cmds(
            program,
        ));
    } else {
        assert(p[0] == us[0]);
        assert(p.subrange(1, p.len() as int) =~= us.subrange(1, us.len() as int).push(u));
        lemma_uniforms_cmds_push(us.subrange(1, us.len() as int), u, program);
        assert(us[0].spec_set_cmds(program) + (spec_uniforms_cmds(
            us.subrange(1, us.len() as int),
            program,
        ) + u.spec_set_cmds(program)) =~= spec_uniforms_cmds(us, program) + u.spec_set_cmds(
            program,
        ));
    }
}

/// Records the writes of every uniform in the batch, in order.
pub fn apply_uniforms(rec: &mut GlRecorder, us: &Vec<UniformKind>, program: ShaderProgram)
    ensures
        final (rec).views() == old(rec).views() + spec_uniforms_cmds(us@, program),
        final (rec).next_id == old(rec).next_id,
{
    let n = us.len();
    let mut i: usize = 0;
    while i < n
        invariant
            n == us@.len(),
            0 <= i <= n,
            rec.views() == old(rec).views() + spec_uniforms_cmds(us@.subrange(0, i as int), program),
            rec.next_id == old(rec).next_id,
        decreases n - i,
    {
        proof {
            assert(us@.subrange(0, i as int).push(us@[i as int]) =~= us@.subrange(0, i as int + 1));
            lemma_uniforms_cmds_push(us@.subrange(0, i as int), us@[i as int], program);
        }
        let u = us[i];
        u.set(rec, program);
        proof {
            assert(rec.views() =~= old(rec).views() + spec_uniforms_cmds(
                us@.subrange(0, i as int + 1),
                program,
            ));
        }
        i = i + 1;
    }
    proof {
        assert(us@.subrange(0, n as int) =~= us@);
    }
}

/// Unfolds the store left by a batch of up to three uniform writes.
proof fn lemma_apply_batch(s: UniformStore, q: Seq<GlCmdV>)
    requires
        1 <= q.len() <= 3,
    ensures
        q.len() == 1 ==> spec_apply_cmds(s, q) == spec_apply_cmd(s, q[0]),
        q.len() == 2 ==> spec_apply_cmds(s, q) == spec_apply_cmd(spec_apply_cmd(s, q[0]), q[1]),
        q.len() == 3 ==> spec_apply_cmds(s, q) == spec_apply_cmd(
            spec_apply_cmd(spec_apply_cmd(s, q[0]), q[1]),
            q[2],
        ),
{
    let r1 = q.subrange(1, q.len() as int);
    let s1 = spec_apply_cmd(s, q[0]);
    assert(spec_apply_cmds(s, q) == spec_apply_cmds(s1, r1));
    if q.len() == 1 {
        assert(r1 =~= Seq::<GlCmdV>::empty());
        assert(spec_apply_cmds(s1, r1) == s1);
    } else {
        let r2 = r1.subrange(1, r1.len() as int);
        assert(r1[0] == q[1]);
        let s2 = spec_apply_cmd(s1, q[1]);
        assert(spec_apply_cmds(s1, r1) == spec_apply_cmds(s2, r2));
        if q.len() == 2 {
            assert(r2 =~= Seq::<GlCmdV>::empty());
            assert(spec_apply_cmds(s2, r2) == s2);
        } else {
            let r3 = r2.subrange(1, r2.len() as int);
            assert(r2[0] == q[2]);
            let s3 = spec_apply_cmd(s2, q[2]);
            assert(spec_apply_cmds(s2, r2) == spec_apply_cmds(s3, r3));
            assert(r3 =~= Seq::<GlCmdV>::empty());
            assert(spec_apply_cmds(s3, r3) == s3);
        }
    }
}

/// Applying one uniform's writes twice in succession leaves the uniform
/// store exactly as applying them once: the value written under each name
/// does not accumulate.
pub proof fn lemma_uniform_set_idempotent(s: UniformStore, u: UniformKind, program: ShaderProgram)
    ensures
        spec_apply_cmds(spec_apply_cmds(s, u.spec_set_cmds(program)), u.spec_set_cmds(program))
            == spec_apply_cmds(s, u.spec_set_cmds(program)),
        spec_apply_cmds(s, u.spec_set_cmds(program) + u.spec_set_cmds(program))
            == spec_apply_cmds(s, u.spec_set_cmds(program)),
{
    let q = u.spec_set_cmds(program);
    let s1 = spec_apply_cmds(s, q);
    lemma_apply_batch(s, q);
    lemma_apply_batch(s1, q);
    assert(spec_apply_cmds(s1, q) =~= s1);
    crate::gl::lemma_apply_cmds_concat(s, q, q);
}

} // verus!
