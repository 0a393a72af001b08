//! The animated triangle entity: flat-shaded instances whose vertex colors
//! rotate once every whole second of scene time, re-uploading the vertex
//! buffer, and whose model transform spins about the y axis when the frame
//! leaves it unset.

use crate::fixed::{mul_div, mul_div_trunc, Vec3, Vec4, COORD_LIMIT, UNIT};
use crate::gl::{BufferTarget, GlCmd, GlCmdV, GlRecorder};
use crate::helpers::{GlColor, GlPosition, Mat3DUpdate};
use crate::mat4::Mat4;
use crate::shader::{build_program, Array, Drawable, GlslPass, Shader};
use crate::uniform::{apply_uniforms, spec_uniforms_cmds, UniformKind};
use vstd::prelude::*;

verus! {

/// A triangle corner's distance from its center, in micro-units.
pub type Circumradius = i64;

/// The most triangle instances one entity may hold.
pub const MAX_TRIANGLES: usize = 0x10_0000;

/// The spin period: the model turns once around y over this time.
pub const SPIN_PERIOD_MS: u64 = 1500;

/// Micro-degrees of spin per leftover millisecond of the period.
pub const SPIN_UDEG_PER_MS: i64 = 240_000;

/// One corner of a triangle: where it sits and its color.
#[derive(Clone, Copy, PartialEq, Eq, Structural, Debug)]
pub struct TriangleVertex {
    pub position: GlPosition,
    pub color: GlColor,
}

/// One triangle: its three corners.
#[derive(Clone, Copy, PartialEq, Eq, Structural, Debug)]
pub struct TriangleInstance {
    pub v0: TriangleVertex,
    pub v1: TriangleVertex,
    pub v2: TriangleVertex,
}

/// The instance with each corner wearing the next corner's color.
pub open spec fn spec_rotated_colors(t: TriangleInstance) -> TriangleInstance {
    TriangleInstance {
        v0: TriangleVertex { position: t.v0.position, color: t.v1.color },
        v1: TriangleVertex { position: t.v1.position, color: t.v2.color },
        v2: TriangleVertex { position: t.v2.position, color: t.v0.color },
    }
}

/// One corner flattened for upload: position, then the color's RGB.
pub open spec fn spec_vertex_flat(v: TriangleVertex) -> Seq<i64> {
    seq![v.position.x, v.position.y, v.position.z, v.color.x, v.color.y, v.color.z]
}

/// One instance flattened: its three corners in order.
pub open spec fn spec_instance_flat(t: TriangleInstance) -> Seq<i64> {
    spec_vertex_flat(t.v0) + spec_vertex_flat(t.v1) + spec_vertex_flat(t.v2)
}

/// The whole vertex buffer: every instance in order.
pub open spec fn spec_instances_flat(s: Seq<TriangleInstance>) -> Seq<i64>
    decreases s.len(),
{
    if s.len() == 0 {
        Seq::empty()
    } else {
        spec_instance_flat(s[0]) + spec_instances_flat(s.subrange(1, s.len() as int))
    }
}

proof fn lemma_instances_flat_push(s: Seq<TriangleInstance>, t: TriangleInstance)
    ensures
        spec_instances_flat(s.push(t)) == spec_instances_flat(s) + spec_instance_flat(t),
    decreases s.len(),
{
    let p = s.push(t);
    if s.len() == 0 {
        assert(p[0] == t);
        assert(p.subrange(1, p.len() as int) =~= Seq::<TriangleInstance>::empty());
        assert(spec_instances_flat(Seq::<TriangleInstance>::empty()) == Seq::<i64>::empty());
        assert(spec_instance_flat(t) + Seq::<i64>::empty() =~= spec_instance_flat(t));
        assert(spec_instances_flat(s) + spec_instance_flat(t) =~= spec_instance_flat(t));
    } else {
        assert(p[0] == s[0]);
        assert(p.subrange(1, p.len() as int) =~= s.subrange(1, s.len() as int).push(t));
        lemma_instances_flat_push(s.subrange(1, s.len() as int), t);
        assert(spec_instance_flat(s[0]) + (spec_instances_flat(s.subrange(1, s.len() as int))
            + spec_instance_flat(t)) =~= spec_instances_flat(s) + spec_instance_flat(t));
    }
}

/// Flattens every instance into one vertex buffer.
fn flat_vertex_data(instances: &Vec<TriangleInstance>) -> (r: Vec<i64>)
    ensures
        r@ == spec_instances_flat(instances@),
{
    let mut out: Vec<i64> = Vec::new();
    let n = instances.len();
    let mut i: usize = 0;
    while i < n
        invariant
            n == instances@.len(),
            0 <= i <= n,
            out@ == spec_instances_flat(instances@.subrange(0, i as int)),
        decreases n - i,
    {
        proof {
            assert(instances@.subrange(0, i as int).push(instances@[i as int])
                =~= instances@.subrange(0, i as int + 1));
            lemma_instances_flat_push(instances@.subrange(0, i as int), instances@[i as int]);
        }
        let t = instances[i];
        out.push(t.v0.position.x);
        out.push(t.v0.position.y);
        out.push(t.v0.position.z);
        out.push(t.v0.color.x);
        out.push(t.v0.color.y);
        out.push(t.v0.color.z);
        out.push(t.v1.position.x);
        out.push(t.v1.position.y);
        out.push(t.v1.position.z);
        out.push(t.v1.color.x);
        out.push(t.v1.color.y);
        out.push(t.v1.color.z);
        out.push(t.v2.position.x);
        out.push(t.v2.position.y);
        out.push(t.v2.position.z);
        out.push(t.v2.color.x);
        out.push(t.v2.color.y);
        out.push(t.v2.color.z);
        proof {
            assert(out@ =~= spec_instances_flat(instances@.subrange(0, i as int + 1)));
        }
        i = i + 1;
    }
    proof {
        assert(instances@.subrange(0, n as int) =~= instances@);
    }
    out
}

/// The spin angle at a scene time: the model finishes one backward turn
/// per period, exactly at the period boundaries.
pub open spec fn spec_spin_angle(now_ms: int) -> int {
    let leftover = now_ms % (SPIN_PERIOD_MS as int);
    if leftover == 0 {
        0
    } else {
        (SPIN_PERIOD_MS - leftover) * SPIN_UDEG_PER_MS
    }
}

/// One corner of the triangle template: the corner direction normalized,
/// scaled by the circumradius, moved to the instance position.
pub open spec fn spec_corner(dir: Vec3, cr: int, pos: Vec3) -> Vec3 {
    let d = dir.spec_normalize();
    Vec3 {
        x: (pos.x + mul_div_trunc(d.x as int, cr, UNIT as int)) as i64,
        y: (pos.y + mul_div_trunc(d.y as int, cr, UNIT as int)) as i64,
        z: (pos.z + mul_div_trunc(d.z as int, cr, UNIT as int)) as i64,
    }
}

/// The triangle for one position and circumradius: red, green and blue
/// corners around the center.
pub open spec fn spec_triangle_instance(pos: Vec3, cr: int) -> TriangleInstance {
    TriangleInstance {
        v0: TriangleVertex {
            position: spec_corner(Vec3 { x: -UNIT as i64, y: -UNIT as i64, z: 0 }, cr, pos),
            color: Vec4 { x: UNIT as i64, y: 0, z: 0, w: UNIT as i64 },
        },
        v1: TriangleVertex {
            position: spec_corner(Vec3 { x: 0, y: UNIT as i64, z: 0 }, cr, pos),
            color: Vec4 { x: 0, y: UNIT as i64, z: 0, w: UNIT as i64 },
        },
        v2: TriangleVertex {
            position: spec_corner(Vec3 { x: UNIT as i64, y: -UNIT as i64, z: 0 }, cr, pos),
            color: Vec4 { x: 0, y: 0, z: UNIT as i64, w: UNIT as i64 },
        },
    }
}

/// A batch of animated triangles.
pub struct HelloTriangle {
    instances: Vec<TriangleInstance>,
    last_second: u64,
    shader: Option<Shader>,
}

pub const TRIANGLE_VERTEX_SHADER: &'static str = "
#version 410 core

uniform mat4 model;
uniform mat4 view;
uniform mat4 projection;

layout(location = 0) in vec3 position;
layout(location = 1) in vec3 color;

out vec3 v_color;

void main() {
    gl_Position = projection * view * model * vec4(position, 1.0);
    v_color = color;
}
";

pub const TRIANGLE_FRAGMENT_SHADER: &'static str = "
#version 410 core

in vec3 v_color;

layout(location = 0) out vec4 FragColor;

void main() {
    FragColor = vec4(v_color, 1.0);
}
";

/// One corner, built from a template direction.
fn corner(dir: Vec3, cr: Circumradius, pos: GlPosition) -> (r: Vec3)
    requires
        dir.bounded(UNIT as int),
        0 < cr <= crate::tex_square::SIDE_LIMIT,
        pos.bounded(COORD_LIMIT as int / 4),
    ensures
        r == spec_corner(dir, cr as int, pos),
{
    let d = dir.normalize();
    proof {
        assert(-i64::MAX <= d.x as int * cr as int <= i64::MAX && -i64::MAX <= d.y as int
            * cr as int <= i64::MAX && -i64::MAX <= d.z as int * cr as int <= i64::MAX)
            by (nonlinear_arith)
            requires
                -1_000_000 <= (d.x as int) <= 1_000_000,
                -1_000_000 <= (d.y as int) <= 1_000_000,
                -1_000_000 <= (d.z as int) <= 1_000_000,
                0 < (cr as int) <= 0x100_0000;
        crate::fixed::lemma_mul_div_contracts(d.x as int, cr as int, UNIT as int, cr as int);
        crate::fixed::lemma_mul_div_contracts(d.y as int, cr as int, UNIT as int, cr as int);
        crate::fixed::lemma_mul_div_contracts(d.z as int, cr as int, UNIT as int, cr as int);
    }
    Vec3 {
        x: pos.x + mul_div(d.x, cr, UNIT),
        y: pos.y + mul_div(d.y, cr, UNIT),
        z: pos.z + mul_div(d.z, cr, UNIT),
    }
}

impl HelloTriangle {
    /// Exactly the commands one `init` records, given the first object
    /// identifier the recorder will hand out: build and activate the
    /// program, set up the vertex array and buffer and upload the
    /// flattened instances, upload the identity-filled transforms,
    /// describe the position and color fields, and apply the initial
    /// uniforms once.
    pub open spec fn spec_init_cmds(
        self,
        mat3d: Mat3DUpdate,
        initial_uniforms: Seq<UniformKind>,
        first_id: u32,
    ) -> Seq<GlCmdV> {
        let program = first_id;
        let vao = (first_id + 1) as u32;
        let vbo = (first_id + 2) as u32;
        seq![
            GlCmdV::BuildProgram {
                program,
                vertex_src: TRIANGLE_VERTEX_SHADER,
                fragment_src: TRIANGLE_FRAGMENT_SHADER,
            },
            GlCmdV::UseProgram { program },
            GlCmdV::CreateVertexArray { vao },
            GlCmdV::BindVertexArray { vao },
            GlCmdV::CreateBuffer { buf: vbo },
            GlCmdV::BindBuffer { target: BufferTarget::Array, buf: vbo },
            GlCmdV::BufferData {
                target: BufferTarget::Array,
                data: spec_instances_flat(self.spec_instances()),
            },
        ] + mat3d.spec_as_init().spec_set_cmds(program) + seq![
            GlCmdV::VertexAttrib { program, name: "position", size: 3, stride: 6, offset: 0 },
            GlCmdV::VertexAttrib { program, name: "color", size: 3, stride: 6, offset: 3 },
        ] + spec_uniforms_cmds(initial_uniforms, program)
    }

    pub closed spec fn spec_instances(self) -> Seq<TriangleInstance> {
        self.instances@
    }

    pub closed spec fn spec_last_second(self) -> u64 {
        self.last_second
    }

    /// One red-green-blue triangle around each position, sized by its
    /// circumradius.
    pub fn new(instances: Vec<(GlPosition, Circumradius)>) -> (r: HelloTriangle)
        requires
            instances@.len() <= MAX_TRIANGLES,
            forall|i: int|
                0 <= i < instances@.len() ==> (#[trigger] instances@[i]).0.bounded(
                    COORD_LIMIT as int / 4,
                ) && 0 < instances@[i].1 <= crate::tex_square::SIDE_LIMIT,
        ensures
            r.spec_shader() is None,
            r.spec_init_ready(),
            r.spec_instances() == instances@.map_values(
                |pc: (GlPosition, Circumradius)| spec_triangle_instance(pc.0, pc.1 as int),
            ),
            r.spec_last_second() == 0,
    {
        let mut built: Vec<TriangleInstance> = Vec::new();
        let n = instances.len();
        let mut i: usize = 0;
        while i < n
            invariant
                n == instances@.len(),
                0 <= i <= n,
                forall|k: int|
                    0 <= k < instances@.len() ==> (#[trigger] instances@[k]).0.bounded(
                        COORD_LIMIT as int / 4,
                    ) && 0 < instances@[k].1 <= crate::tex_square::SIDE_LIMIT,
                built@ == instances@.subrange(0, i as int).map_values(
                    |pc: (GlPosition, Circumradius)| spec_triangle_instance(pc.0, pc.1 as int),
                ),
            decreases n - i,
        {
            let (pos, cr) = instances[i];
            let t = TriangleInstance {
                v0: TriangleVertex {
                    position: corner(Vec3 { x: -UNIT, y: -UNIT, z: 0 }, cr, pos),
                    color: Vec4 { x: UNIT, y: 0, z: 0, w: UNIT },
                },
                v1: TriangleVertex {
                    position: corner(Vec3 { x: 0, y: UNIT, z: 0 }, cr, pos),
                    color: Vec4 { x: 0, y: UNIT, z: 0, w: UNIT },
                },
                v2: TriangleVertex {
                    position: corner(Vec3 { x: UNIT, y: -UNIT, z: 0 }, cr, pos),
                    color: Vec4 { x: 0, y: 0, z: UNIT, w: UNIT },
                },
            };
            built.push(t);
            proof {
                assert(built@ =~= instances@.subrange(0, i as int + 1).map_values(
                    |pc: (GlPosition, Circumradius)| spec_triangle_instance(pc.0, pc.1 as int),
                ));
            }
            i = i + 1;
        }
        proof {
            assert(instances@.subrange(0, n as int) =~= instances@);
        }
        HelloTriangle { instances: built, last_second: 0, shader: None }
    }

    /// Rotates every instance's corner colors one step left.
    fn rotate_vertex_colors_left(&mut self)
        ensures
            final (self).instances@ == old(self).instances@.map_values(
                |t: TriangleInstance| spec_rotated_colors(t),
            ),
            final (self).last_second == old(self).last_second,
            final (self).shader == old(self).shader,
    {
        let n = self.instances.len();
        let mut i: usize = 0;
        while i < n
            invariant
                n == self.instances@.len(),
                0 <= i <= n,
                self.instances@.len() == old(self).instances@.len(),
                forall|k: int|
                    i <= k < n ==> self.instances@[k] == old(self).instances@[k],
                forall|k: int|
                    0 <= k < i ==> self.instances@[k] == spec_rotated_colors(
                        #[trigger] old(self).instances@[k],
                    ),
                self.last_second == old(self).last_second,
                self.shader == old(self).shader,
            decreases n - i,
        {
            let t = self.instances[i];
            let rotated = TriangleInstance {
                v0: TriangleVertex { position: t.v0.position, color: t.v1.color },
                v1: TriangleVertex { position: t.v1.position, color: t.v2.color },
                v2: TriangleVertex { position: t.v2.position, color: t.v0.color },
            };
            self.instances.set(i, rotated);
            i = i + 1;
        }
        proof {
            assert(self.instances@ =~= old(self).instances@.map_values(
                |t: TriangleInstance| spec_rotated_colors(t),
            ));
        }
    }

    /// The re-upload commands for the current vertex data: present only
    /// once initialized, against the entity's one array drawable.
    pub open spec fn spec_reupload_cmds(
        shader: Option<Shader>,
        instances: Seq<TriangleInstance>,
    ) -> Seq<GlCmdV> {
        match shader {
            None => Seq::<GlCmdV>::empty(),
            Some(sh) => {
                if sh.drawables@.len() >= 1 && sh.drawables@[0] is Array {
                    seq![
                        GlCmdV::BindBuffer {
                            target: BufferTarget::Array,
                            buf: sh.drawables@[0]->Array_0.vbo,
                        },
                        GlCmdV::BufferSubData {
                            target: BufferTarget::Array,
                            data: spec_instances_flat(instances),
                        },
                    ]
                } else {
                    Seq::<GlCmdV>::empty()
                }
            },
        }
    }

    /// Re-uploads the current vertex data over the existing buffer.
    fn apply_v_change_to_gpu(&self, rec: &mut GlRecorder)
        ensures
            final (rec).views() == old(rec).views() + HelloTriangle::spec_reupload_cmds(
                self.shader,
                self.instances@,
            ),
            final (rec).next_id == old(rec).next_id,
    {
        match &self.shader {
            None => {
                proof {
                    assert(rec.views() =~= old(rec).views() + HelloTriangle::spec_reupload_cmds(
                        self.shader,
                        self.instances@,
                    ));
                }
            },
            Some(sh) => {
                if sh.drawables.len() >= 1 {
                    let first = &sh.drawables[0];
                    match first {
                        Drawable::Array(a) => {
                            rec.record(GlCmd::BindBuffer {
                                target: BufferTarget::Array,
                                buf: a.vbo,
                            });
                            let data = flat_vertex_data(&self.instances);
                            rec.record(GlCmd::BufferSubData {
                                target: BufferTarget::Array,
                                data,
                            });
                            proof {
                                assert(rec.views() =~= old(rec).views()
                                    + HelloTriangle::spec_reupload_cmds(
                                    self.shader,
                                    self.instances@,
                                ));
                            }
                        },
                        Drawable::Indexed(_) => {
                            proof {
                                assert(rec.views() =~= old(rec).views()
                                    + HelloTriangle::spec_reupload_cmds(
                                    self.shader,
                                    self.instances@,
                                ));
                            }
                        },
                    }
                } else {
                    proof {
                        assert(rec.views() =~= old(rec).views()
                            + HelloTriangle::spec_reupload_cmds(self.shader, self.instances@));
                    }
                }
            },
        }
    }
}

impl GlslPass for HelloTriangle {
    closed spec fn spec_shader(&self) -> Option<Shader> {
        self.shader
    }

    closed spec fn spec_init_ready(&self) -> bool {
        self.instances@.len() <= MAX_TRIANGLES
    }

    closed spec fn spec_is_updated(
        &self,
        post: &Self,
        mat3d: Mat3DUpdate,
        uniforms: Seq<UniformKind>,
        now_ms: u64,
    ) -> bool {
        let rotate = now_ms / 1000 > self.last_second;
        &&& post.instances@ == (if rotate {
            self.instances@.map_values(|t: TriangleInstance| spec_rotated_colors(t))
        } else {
            self.instances@
        })
        &&& post.last_second == (if rotate {
            now_ms / 1000
        } else {
            self.last_second
        })
        &&& post.shader == match self.shader {
            None => self.shader,
            Some(sh) => Some(
                Shader {
                    model_transform: match mat3d.model {
                        Some(m) => m,
                        None => Mat4::spec_from_rotation_y(spec_spin_angle(now_ms as int)),
                    },
                    ..sh
                },
            ),
        }
    }

    closed spec fn spec_update_cmds(
        &self,
        mat3d: Mat3DUpdate,
        uniforms: Seq<UniformKind>,
        now_ms: u64,
    ) -> Seq<GlCmdV> {
        let rotate = now_ms / 1000 > self.last_second;
        let instances = if rotate {
            self.instances@.map_values(|t: TriangleInstance| spec_rotated_colors(t))
        } else {
            self.instances@
        };
        let upload = if rotate {
            HelloTriangle::spec_reupload_cmds(self.shader, instances)
        } else {
            Seq::<GlCmdV>::empty()
        };
        match self.shader {
            None => upload,
            Some(sh) => {
                let effective = Mat3DUpdate {
                    model: Some(
                        match mat3d.model {
                            Some(m) => m,
                            None => Mat4::spec_from_rotation_y(spec_spin_angle(now_ms as int)),
                        },
                    ),
                    ..mat3d
                };
                upload + effective.spec_set_cmds(sh.program) + spec_uniforms_cmds(
                    uniforms,
                    sh.program,
                )
            },
        }
    }

    proof fn lemma_uninit_update_records_nothing(
        &self,
        post: &Self,
        mat3d: Mat3DUpdate,
        uniforms: Seq<UniformKind>,
        now_ms: u64,
    ) {
    }

    proof fn lemma_update_keeps_wf(
        &self,
        post: &Self,
        mat3d: Mat3DUpdate,
        uniforms: Seq<UniformKind>,
        now_ms: u64,
    ) {
    }

    fn init(
        &mut self,
        rec: &mut GlRecorder,
        mat3d: Mat3DUpdate,
        initial_uniforms: &Vec<UniformKind>,
    )
        ensures
            final (self).spec_instances() == old(self).spec_instances(),
            final (self).spec_last_second() == old(self).spec_last_second(),
            final (rec).views() == old(rec).views() + old(self).spec_init_cmds(
                mat3d,
                initial_uniforms@,
                old(rec).next_id,
            ),
            final (self).spec_shader() matches Some(sh) && sh.program == old(rec).next_id
                && sh.tex is None && sh.drawables@ == seq![
                Drawable::Array(
                    Array {
                        vao: (old(rec).next_id + 1) as u32,
                        vbo: (old(rec).next_id + 2) as u32,
                        len: old(self).spec_instances().len() as usize,
                        offset: 3,
                        count: 3,
                    },
                ),
            ] && Some(sh.model_transform) == mat3d.spec_as_init().model,
    {
        let ghost old_model = mat3d.model;
        let ghost old_view = mat3d.view;
        let ghost old_projection = mat3d.projection;
        let mat3d = mat3d.as_init();
        let vertex_data = flat_vertex_data(&self.instances);
        let program = build_program(rec, TRIANGLE_VERTEX_SHADER, TRIANGLE_FRAGMENT_SHADER);
        rec.record(GlCmd::UseProgram { program });
        let vao = rec.fresh_id();
        rec.record(GlCmd::CreateVertexArray { vao });
        rec.record(GlCmd::BindVertexArray { vao });
        let vbo = rec.fresh_id();
        rec.record(GlCmd::CreateBuffer { buf: vbo });
        rec.record(GlCmd::BindBuffer { target: BufferTarget::Array, buf: vbo });
        rec.record(GlCmd::BufferData { target: BufferTarget::Array, data: vertex_data });
        mat3d.set_uniforms(rec, program);
        rec.record(GlCmd::VertexAttrib { program, name: "position", size: 3, stride: 6, offset: 0 });
        rec.record(GlCmd::VertexAttrib { program, name: "color", size: 3, stride: 6, offset: 3 });
        apply_uniforms(rec, initial_uniforms, program);
        let model_transform = match mat3d.model {
            Some(m) => m,
            None => Mat4::identity(),
        };
        let n = self.instances.len();
        proof {
            assert(n * 3 <= usize::MAX) by (nonlinear_arith)
                requires
                    0 <= n <= 0x10_0000;
        }
        let mut drawables: Vec<Drawable> = Vec::new();
        drawables.push(Drawable::Array(Array { vao, vbo, len: n, offset: 3, count: 3 }));
        proof {
            assert(drawables@ =~= seq![
                Drawable::Array(Array { vao, vbo, len: n, offset: 3, count: 3 }),
            ]);
        }
        self.shader = Some(Shader { program, model_transform, drawables, tex: None });
        proof {
            assert(rec.views() =~= old(rec).views() + old(self).spec_init_cmds(
                Mat3DUpdate { model: old_model, view: old_view, projection: old_projection },
                initial_uniforms@,
                old(rec).next_id,
            ));
            assert(old(rec).views().is_prefix_of(rec.views())) by {
                assert(rec.views().subrange(0, old(rec).views().len() as int) =~= old(
                    rec,
                ).views());
            }
        }
    }

    fn update(
        &mut self,
        rec: &mut GlRecorder,
        mat3d: Mat3DUpdate,
        to_set_uniforms: &Vec<UniformKind>,
        now_ms: u64,
    ) {
        let secs = now_ms / 1000;
        if secs > self.last_second {
            self.last_second = secs;
            self.rotate_vertex_colors_left();
            self.apply_v_change_to_gpu(rec);
        }
        match &mut self.shader {
            None => {},
            Some(sh) => {
                let model = match mat3d.model {
                    Some(m) => m,
                    None => {
                        let leftover = now_ms % SPIN_PERIOD_MS;
                        let angle: i64 = if leftover == 0 {
                            0
                        } else {
                            ((SPIN_PERIOD_MS - leftover) as i64) * SPIN_UDEG_PER_MS
                        };
                        Mat4::from_rotation_y(angle)
                    },
                };
                sh.model_transform = model;
                let program = sh.program;
                let effective = Mat3DUpdate { model: Some(model), ..mat3d };
                effective.set_uniforms(rec, program);
                apply_uniforms(rec, to_set_uniforms, program);
            },
        }
    }

    fn get_shader(&self) -> (r: Option<&Shader>) {
        self.shader.as_ref()
    }
}

} // verus!
