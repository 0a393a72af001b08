//! The imported teapot: indexed triangle meshes, gathered into interleaved
//! position/normal vertex data and drawn with an index buffer. The mesh
//! itself arrives decoded (the file loading lives outside this library);
//! this entity owns the index gathering, upload and per-frame uniforms.

use crate::fixed::{mul_div, mul_div_trunc, Vec3, COORD_LIMIT, UNIT};
use crate::gl::{BufferTarget, GlCmd, GlCmdV, GlRecorder};
use crate::helpers::{GlPosition, Mat3DUpdate};
use crate::mat4::Mat4;
use crate::fixed::Vec4;
use crate::shader::{build_program, Drawable, GlslPass, IndexedElements, Shader};
use crate::uniform::{apply_uniforms, spec_uniforms_cmds, UniformKind};
use vstd::prelude::*;

verus! {

/// The most models one teapot entity may hold.
pub const MAX_MESH_MODELS: usize = 0x100;

/// The most indices one model may hold.
pub const MAX_MESH_INDICES: usize = 0x40_0000;

/// One triangulated model: flat position and normal arrays in micro-units,
/// and an index pair per vertex referencing them.
#[derive(Clone, PartialEq, Debug)]
pub struct MeshModel {
    pub positions: Vec<i64>,
    pub normals: Vec<i64>,
    pub position_indices: Vec<u32>,
    pub normal_indices: Vec<u32>,
}

impl MeshModel {
    /// Index pairs aligned, counts bounded, and every index in range.
    pub open spec fn well_formed(self) -> bool {
        &&& self.position_indices@.len() == self.normal_indices@.len()
        &&& self.position_indices@.len() <= MAX_MESH_INDICES
        &&& forall|j: int|
            0 <= j < self.position_indices@.len() ==> (#[trigger] self.position_indices@[j]) as int
                * 3 + 3 <= self.positions@.len()
        &&& forall|j: int|
            0 <= j < self.normal_indices@.len() ==> (#[trigger] self.normal_indices@[j]) as int * 3
                + 3 <= self.normals@.len()
    }
}

/// One model's interleaved vertex data: for the `j`-th index pair, the
/// three position scalars its position index points at, then the three
/// normal scalars its normal index points at.
pub open spec fn spec_gathered(m: MeshModel) -> Seq<i64> {
    Seq::new(
        (6 * m.position_indices@.len()) as nat,
        |i: int|
            {
                let j = i / 6;
                let r = i % 6;
                if r < 3 {
                    m.positions@[m.position_indices@[j] as int * 3 + r]
                } else {
                    m.normals@[m.normal_indices@[j] as int * 3 + (r - 3)]
                }
            },
    )
}

/// Gathers one model's indexed vertices into interleaved data.
fn gather_vertex_data(m: &MeshModel) -> (r: Vec<i64>)
    requires
        m.well_formed(),
    ensures
        r@ == spec_gathered(*m),
{
    let mut out: Vec<i64> = Vec::new();
    let n = m.position_indices.len();
    let mut j: usize = 0;
    while j < n
        invariant
            n == m.position_indices@.len(),
            0 <= j <= n,
            m.well_formed(),
            out@.len() == 6 * j,
            out@ == spec_gathered(*m).subrange(0, 6 * j as int),
        decreases n - j,
    {
        proof {
            assert(m.position_indices@[j as int] as int * 3 + 3 <= m.positions@.len());
            assert(m.normal_indices@[j as int] as int * 3 + 3 <= m.normals@.len());
        }
        let plen = m.positions.len();
        let nlen = m.normals.len();
        let pi = m.position_indices[j] as usize;
        let ni = m.normal_indices[j] as usize;
        let p = pi * 3;
        let q = ni * 3;
        out.push(m.positions[p]);
        out.push(m.positions[p + 1]);
        out.push(m.positions[p + 2]);
        out.push(m.normals[q]);
        out.push(m.normals[q + 1]);
        out.push(m.normals[q + 2]);
        proof {
            let ji = j as int;
            vstd::arithmetic::div_mod::lemma_fundamental_div_mod_converse(6 * ji, 6, ji, 0);
            vstd::arithmetic::div_mod::lemma_fundamental_div_mod_converse(6 * ji + 1, 6, ji, 1);
            vstd::arithmetic::div_mod::lemma_fundamental_div_mod_converse(6 * ji + 2, 6, ji, 2);
            vstd::arithmetic::div_mod::lemma_fundamental_div_mod_converse(6 * ji + 3, 6, ji, 3);
            vstd::arithmetic::div_mod::lemma_fundamental_div_mod_converse(6 * ji + 4, 6, ji, 4);
            vstd::arithmetic::div_mod::lemma_fundamental_div_mod_converse(6 * ji + 5, 6, ji, 5);
            assert(out@ =~= spec_gathered(*m).subrange(0, 6 * (ji + 1)));
        }
        j = j + 1;
    }
    proof {
        assert(spec_gathered(*m).subrange(0, 6 * n as int) =~= spec_gathered(*m));
    }
    out
}

/// The running index buffer a model draws with: one index per gathered
/// vertex, in order.
pub open spec fn spec_identity_indices(n: nat) -> Seq<u32> {
    Seq::new(n, |i: int| i as u32)
}

/// The setup commands of one model, given the first of the three object
/// identifiers it consumes: vertex array, vertex buffer with the gathered
/// data, index buffer with the running indices, and the two vertex fields.
pub open spec fn spec_model_cmds(m: MeshModel, program: u32, first_id: u32) -> Seq<GlCmdV> {
    let vao = first_id;
    let vbo = (first_id + 1) as u32;
    let ebo = (first_id + 2) as u32;
    seq![
        GlCmdV::CreateVertexArray { vao },
        GlCmdV::BindVertexArray { vao },
        GlCmdV::CreateBuffer { buf: vbo },
        GlCmdV::BindBuffer { target: BufferTarget::Array, buf: vbo },
        GlCmdV::BufferData { target: BufferTarget::Array, data: spec_gathered(m) },
        GlCmdV::CreateBuffer { buf: ebo },
        GlCmdV::BindBuffer { target: BufferTarget::ElementArray, buf: ebo },
        GlCmdV::BufferDataIndices {
            data: spec_identity_indices(m.position_indices@.len()),
        },
        GlCmdV::VertexAttrib { program, name: "position", size: 3, stride: 6, offset: 0 },
        GlCmdV::VertexAttrib { program, name: "normal", size: 3, stride: 6, offset: 3 },
    ]
}

/// The setup commands of a model list, in order, each model consuming the
/// next three object identifiers.
pub open spec fn spec_models_cmds(ms: Seq<MeshModel>, program: u32, first_id: u32) -> Seq<GlCmdV>
    decreases ms.len(),
{
    if ms.len() == 0 {
        Seq::<GlCmdV>::empty()
    } else {
        spec_model_cmds(ms[0], program, first_id) + spec_models_cmds(
            ms.subrange(1, ms.len() as int),
            program,
            (first_id + 3) as u32,
        )
    }
}

/// Extending the model list appends that model's setup at the next free
/// identifiers.
proof fn lemma_models_cmds_push(ms: Seq<MeshModel>, m: MeshModel, program: u32, first_id: u32)
    requires
        first_id + 3 * ms.len() + 3 <= u32::MAX,
    ensures
        spec_models_cmds(ms.push(m), program, first_id) == spec_models_cmds(
            ms,
            program,
            first_id,
        ) + spec_model_cmds(m, program, (first_id + 3 * ms.len()) as u32),
    decreases ms.len(),
{
    let p = ms.push(m);
    if ms.len() == 0 {
        assert(p[0] == m);
        assert(p.subrange(1, p.len() as int) =~= Seq::<MeshModel>::empty());
        assert(spec_models_cmds(Seq::<MeshModel>::empty(), program, (first_id + 3) as u32)
            == Seq::<GlCmdV>::empty());
        assert(spec_model_cmds(m, program, first_id) + Seq::<GlCmdV>::empty()
            =~= spec_model_cmds(m, program, first_id));
        assert(spec_models_cmds(ms, program, first_id) + spec_model_cmds(m, program, first_id)
            =~= spec_model_cmds(m, program, first_id));
    } else {
        assert(p[0] == ms[0]);
        assert(p.subrange(1, p.len() as int) =~= ms.subrange(1, ms.len() as int).push(m));
        lemma_models_cmds_push(
            ms.subrange(1, ms.len() as int),
            m,
            program,
            (first_id + 3) as u32,
        );
        assert(((first_id + 3) as u32 + 3 * ms.subrange(1, ms.len() as int).len()) as u32
            == (first_id + 3 * ms.len()) as u32);
        assert(spec_model_cmds(ms[0], program, first_id) + (spec_models_cmds(
            ms.subrange(1, ms.len() as int),
            program,
            (first_id + 3) as u32,
        ) + spec_model_cmds(m, program, (first_id + 3 * ms.len()) as u32)) =~= spec_models_cmds(
            ms,
            program,
            first_id,
        ) + spec_model_cmds(m, program, (first_id + 3 * ms.len()) as u32));
    }
}

/// The imported mesh entity: a position, a flat color, and its models.
pub struct UtahTeapot {
    position: GlPosition,
    color: Vec3,
    models: Vec<MeshModel>,
    shader: Option<Shader>,
}

pub const TEAPOT_VERTEX_SHADER: &'static str = "
#version 410 core

uniform mat4 model;
uniform mat4 view;
uniform mat4 projection;

layout(location = 0) in vec3 position;
layout(location = 1) in vec3 normal;

out vec3 fragNorm;
out vec3 fragPos;

void main() {
    gl_Position = projection * view * model * vec4(position, 1.0);
    fragPos = vec3(model * vec4(position, 1.0));
    fragNorm = mat3(transpose(inverse(model))) * normal;
}
";

pub const TEAPOT_FRAGMENT_SHADER: &'static str = "
#version 410 core

uniform vec3 uColor;
uniform vec3 uLightPos;
uniform vec3 viewPos;

layout(location = 0) out vec4 FragColor;

in vec3 fragNorm;
in vec3 fragPos;

void main() {
    float specularStrength = 0.5;

    vec3 norm = normalize(fragNorm);

    vec3 lightDir = normalize(uLightPos - fragPos);
    float diffuse = max(dot(norm, lightDir), 0.0);

    vec3 viewDir = normalize(viewPos - fragPos);
    vec3 reflectDir = reflect(-lightDir, norm);
    float spec = pow(max(dot(viewDir, reflectDir), 0.0), 32);
    vec3 specular = specularStrength * spec * vec3(1.0, 1.0, 1.0);

    float ambientStrenght = 0.1;

    vec3 result = uColor * (ambientStrenght + diffuse + specular);
    FragColor = vec4(result, 1.0);
}
";

/// The teapot's model transform: scale to half size about the origin,
/// after moving to the teapot's position — one matrix, no general product
/// needed because the scale is uniform.
pub open spec fn spec_scaled_translation(s: int, v: Vec3) -> Mat4 {
    Mat4 {
        x_axis: Vec4 { x: s as i64, y: 0, z: 0, w: 0 },
        y_axis: Vec4 { x: 0, y: s as i64, z: 0, w: 0 },
        z_axis: Vec4 { x: 0, y: 0, z: s as i64, w: 0 },
        w_axis: Vec4 {
            x: mul_div_trunc(s, v.x as int, UNIT as int) as i64,
            y: mul_div_trunc(s, v.y as int, UNIT as int) as i64,
            z: mul_div_trunc(s, v.z as int, UNIT as int) as i64,
            w: UNIT as i64,
        },
    }
}

fn scaled_translation(s: i64, v: Vec3) -> (r: Mat4)
    requires
        0 < s <= UNIT,
        v.bounded(COORD_LIMIT as int),
    ensures
        r == spec_scaled_translation(s as int, v),
{
    proof {
        assert(-i64::MAX <= s as int * v.x as int <= i64::MAX && -i64::MAX <= s as int
            * v.y as int <= i64::MAX && -i64::MAX <= s as int * v.z as int <= i64::MAX)
            by (nonlinear_arith)
            requires
                0 < (s as int) <= 1_000_000,
                -0x4000_0000 <= (v.x as int) <= 0x4000_0000,
                -0x4000_0000 <= (v.y as int) <= 0x4000_0000,
                -0x4000_0000 <= (v.z as int) <= 0x4000_0000;
    }
    Mat4 {
        x_axis: Vec4 { x: s, y: 0, z: 0, w: 0 },
        y_axis: Vec4 { x: 0, y: s, z: 0, w: 0 },
        z_axis: Vec4 { x: 0, y: 0, z: s, w: 0 },
        w_axis: Vec4 {
            x: mul_div(s, v.x, UNIT),
            y: mul_div(s, v.y, UNIT),
            z: mul_div(s, v.z, UNIT),
            w: UNIT,
        },
    }
}

impl UtahTeapot {
    pub closed spec fn spec_models(self) -> Seq<MeshModel> {
        self.models@
    }

    /// Exactly the commands one `init` records, given the first object
    /// identifier the recorder will hand out: build and activate the
    /// program, set up each model's buffers in order, resolve the
    /// transform bundle to identity-filled values with the teapot's scaled
    /// placement as its model and upload all three, write the flat color,
    /// and apply the initial uniforms once.
    pub open spec fn spec_init_cmds(
        self,
        mat3d: Mat3DUpdate,
        initial_uniforms: Seq<UniformKind>,
        first_id: u32,
    ) -> Seq<GlCmdV> {
        let program = first_id;
        let filled = mat3d.spec_as_init();
        seq![
            GlCmdV::BuildProgram {
                program,
                vertex_src: TEAPOT_VERTEX_SHADER,
                fragment_src: TEAPOT_FRAGMENT_SHADER,
            },
            GlCmdV::UseProgram { program },
        ] + spec_models_cmds(self.spec_models(), program, (first_id + 1) as u32)
            + (Mat3DUpdate {
            model: Some(
                spec_scaled_translation(UNIT as int / 2, self.spec_position()),
            ),
            ..filled
        }).spec_set_cmds(program) + seq![
            GlCmdV::SetUniform {
                program,
                name: "uColor",
                value: crate::gl::UniformValue::V3(self.spec_color()),
            },
        ] + spec_uniforms_cmds(initial_uniforms, program)
    }

    pub closed spec fn spec_position(self) -> GlPosition {
        self.position
    }

    pub closed spec fn spec_color(self) -> Vec3 {
        self.color
    }

    pub fn new(position: GlPosition, color: Vec3, models: Vec<MeshModel>) -> (r: UtahTeapot)
        requires
            position.bounded(COORD_LIMIT as int / 4),
            models@.len() <= MAX_MESH_MODELS,
            forall|i: int| 0 <= i < models@.len() ==> (#[trigger] models@[i]).well_formed(),
        ensures
            r.spec_shader() is None,
            r.spec_init_ready(),
            r.spec_position() == position,
            r.spec_color() == color,
            r.spec_models() == models@,
    {
        UtahTeapot { position, color, models, shader: None }
    }
}

impl GlslPass for UtahTeapot {
    closed spec fn spec_shader(&self) -> Option<Shader> {
        self.shader
    }

    closed spec fn spec_init_ready(&self) -> bool {
        &&& self.position.bounded(COORD_LIMIT as int / 4)
        &&& self.models@.len() <= MAX_MESH_MODELS
        &&& forall|i: int| 0 <= i < self.models@.len() ==> (#[trigger] self.models@[i]).well_formed()
    }

    closed spec fn spec_is_updated(
        &self,
        post: &Self,
        mat3d: Mat3DUpdate,
        uniforms: Seq<UniformKind>,
        now_ms: u64,
    ) -> bool {
        *post == *self
    }

    closed spec fn spec_update_cmds(
        &self,
        mat3d: Mat3DUpdate,
        uniforms: Seq<UniformKind>,
        now_ms: u64,
    ) -> Seq<GlCmdV> {
        match self.shader {
            None => Seq::<GlCmdV>::empty(),
            Some(sh) => mat3d.spec_set_cmds(sh.program) + spec_uniforms_cmds(uniforms, sh.program),
        }
    }

    proof fn lemma_uninit_update_records_nothing(
        &self,
        post: &Self,
        mat3d: Mat3DUpdate,
        uniforms: Seq<UniformKind>,
        now_ms: u64,
    ) {
    }

    proof fn lemma_update_keeps_wf(
        &self,
        post: &Self,
        mat3d: Mat3DUpdate,
        uniforms: Seq<UniformKind>,
        now_ms: u64,
    ) {
    }

    fn init(
        &mut self,
        rec: &mut GlRecorder,
        mat3d: Mat3DUpdate,
        initial_uniforms: &Vec<UniformKind>,
    )
        ensures
            final (self).spec_models() == old(self).spec_models(),
            final (self).spec_position() == old(self).spec_position(),
            final (self).spec_color() == old(self).spec_color(),
            final (rec).views() == old(rec).views() + old(self).spec_init_cmds(
                mat3d,
                initial_uniforms@,
                old(rec).next_id,
            ),
            final (self).spec_shader() matches Some(sh) && sh.program == old(rec).next_id
                && sh.tex is None && sh.model_transform == spec_scaled_translation(
                UNIT as int / 2,
                old(self).spec_position(),
            ) && sh.drawables@.len() == old(self).spec_models().len() && (forall|k: int|
                0 <= k < sh.drawables@.len() ==> #[trigger] sh.drawables@[k] == Drawable::Indexed(
                    IndexedElements {
                        vao: (old(rec).next_id + 1 + 3 * k) as u32,
                        vbo: (old(rec).next_id + 2 + 3 * k) as u32,
                        ebo: (old(rec).next_id + 3 + 3 * k) as u32,
                        index_count: old(
                            self,
                        ).spec_models()[k].position_indices@.len() as usize,
                    },
                )),
    {
        let program = build_program(rec, TEAPOT_VERTEX_SHADER, TEAPOT_FRAGMENT_SHADER);
        rec.record(GlCmd::UseProgram { program });
        let ghost header = rec.views();
        let mut drawables: Vec<Drawable> = Vec::new();
        let n = self.models.len();
        let mut i: usize = 0;
        while i < n
            invariant
                n == self.models@.len(),
                0 <= i <= n,
                n <= MAX_MESH_MODELS,
                old(rec).next_id <= 0xE000_0000u32,
                program == old(rec).next_id,
                forall|k: int|
                    0 <= k < self.models@.len() ==> (#[trigger] self.models@[k]).well_formed(),
                drawables@.len() == i,
                forall|k: int|
                    0 <= k < drawables@.len() ==> #[trigger] drawables@[k] == Drawable::Indexed(
                        IndexedElements {
                            vao: (old(rec).next_id + 1 + 3 * k) as u32,
                            vbo: (old(rec).next_id + 2 + 3 * k) as u32,
                            ebo: (old(rec).next_id + 3 + 3 * k) as u32,
                            index_count: self.models@[k].position_indices@.len() as usize,
                        },
                    ),
                rec.next_id as int == old(rec).next_id as int + 1 + 3 * i,
                rec.views() == header + spec_models_cmds(
                    self.models@.subrange(0, i as int),
                    program,
                    (old(rec).next_id + 1) as u32,
                ),
            decreases n - i,
        {
            proof {
                assert(self.models@.subrange(0, i as int).push(self.models@[i as int])
                    =~= self.models@.subrange(0, i as int + 1));
                lemma_models_cmds_push(
                    self.models@.subrange(0, i as int),
                    self.models@[i as int],
                    program,
                    (old(rec).next_id + 1) as u32,
                );
            }
            let vertex_data = gather_vertex_data(&self.models[i]);
            let index_count = self.models[i].position_indices.len();
            let mut final_indices: Vec<u32> = Vec::new();
            let mut j: usize = 0;
            while j < index_count
                invariant
                    0 <= j <= index_count,
                    index_count <= MAX_MESH_INDICES,
                    final_indices@ == spec_identity_indices(j as nat),
                decreases index_count - j,
            {
                final_indices.push(j as u32);
                proof {
                    assert(final_indices@ =~= spec_identity_indices((j + 1) as nat));
                }
                j = j + 1;
            }
            let vao = rec.fresh_id();
            rec.record(GlCmd::CreateVertexArray { vao });
            rec.record(GlCmd::BindVertexArray { vao });
            let vbo = rec.fresh_id();
            rec.record(GlCmd::CreateBuffer { buf: vbo });
            rec.record(GlCmd::BindBuffer { target: BufferTarget::Array, buf: vbo });
            rec.record(GlCmd::BufferData { target: BufferTarget::Array, data: vertex_data });
            let ebo = rec.fresh_id();
            rec.record(GlCmd::CreateBuffer { buf: ebo });
            rec.record(GlCmd::BindBuffer { target: BufferTarget::ElementArray, buf: ebo });
            rec.record(GlCmd::BufferDataIndices { data: final_indices });
            rec.record(GlCmd::VertexAttrib {
                program,
                name: "position",
                size: 3,
                stride: 6,
                offset: 0,
            });
            rec.record(GlCmd::VertexAttrib {
                program,
                name: "normal",
                size: 3,
                stride: 6,
                offset: 3,
            });
            drawables.push(Drawable::Indexed(IndexedElements { vao, vbo, ebo, index_count }));
            proof {
                assert(rec.views() =~= header + spec_models_cmds(
                    self.models@.subrange(0, i as int + 1),
                    program,
                    (old(rec).next_id + 1) as u32,
                ));
            }
            i = i + 1;
        }
        let model = scaled_translation(UNIT / 2, self.position);
        let filled = mat3d.as_init();
        let bundle = Mat3DUpdate { model: Some(model), ..filled };
        bundle.set_uniforms(rec, program);
        rec.record(GlCmd::SetUniform {
            program,
            name: "uColor",
            value: crate::gl::UniformValue::V3(self.color),
        });
        apply_uniforms(rec, initial_uniforms, program);
        self.shader = Some(Shader { program, model_transform: model, drawables, tex: None });
        proof {
            assert(self.models@.subrange(0, n as int) =~= self.models@);
            assert(rec.views() =~= old(rec).views() + old(self).spec_init_cmds(
                mat3d,
                initial_uniforms@,
                old(rec).next_id,
            ));
            assert(old(rec).views().is_prefix_of(rec.views())) by {
                assert(rec.views().subrange(0, old(rec).views().len() as int) =~= old(
                    rec,
                ).views());
            }
        }
    }

    fn update(
        &mut self,
        rec: &mut GlRecorder,
        mat3d: Mat3DUpdate,
        to_set_uniforms: &Vec<UniformKind>,
        now_ms: u64,
    ) {
        match &self.shader {
            None => {},
            Some(sh) => {
                let program = sh.program;
                mat3d.set_uniforms(rec, program);
                apply_uniforms(rec, to_set_uniforms, program);
            },
        }
    }

    fn get_shader(&self) -> (r: Option<&Shader>) {
        self.shader.as_ref()
    }
}

} // verus!
