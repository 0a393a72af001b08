//! Textured, lit quads: the instanced square entity and its geometry.
//!
//! A [`Square`] is one axis-aligned face given by two opposite corners;
//! [`TexSquare`] owns a batch of them, uploads their interleaved
//! position/texture/normal vertex data once, and draws each as one
//! triangle strip.

use crate::fixed::{Vec2, Vec3, COORD_LIMIT, UNIT};
use crate::gl::{BufferTarget, GlCmd, GlCmdV, GlRecorder, TEXTURE_2D};
use crate::helpers::{GlPosition, Mat3DUpdate};
use crate::mat4::Mat4;
use crate::shader::{build_program, Array, Drawable, GlslPass, Shader, Tex};
use crate::uniform::{apply_uniforms, spec_uniforms_cmds, UniformKind};
use vstd::prelude::*;

verus! {

/// The largest half-extent of a square's corners along any axis, in
/// micro-units (around sixteen units): keeps the face-normal arithmetic
/// inside the fixed-point bounds.
pub const SIDE_LIMIT: i64 = 0x100_0000;

/// The most squares one entity may hold.
pub const MAX_SQUARES: usize = 0x10_0000;

/// One corner of a textured square, flattened for upload.
#[derive(Clone, Copy, PartialEq, Eq, Structural, Debug)]
pub struct SquareVertex {
    pub position: Vec3,
    pub tex_map: Vec2,
    pub normal: Vec3,
}

impl SquareVertex {
    /// Scalars one flattened vertex occupies in the vertex buffer.
    pub const FLAT_SIZE: usize = 8;

    pub fn new(position: GlPosition, tex_map: Vec2, normal: Vec3) -> (r: SquareVertex)
        ensures
            r == (SquareVertex { position, tex_map, normal }),
    {
        SquareVertex { position, tex_map, normal }
    }

    pub open spec fn spec_flat(self) -> Seq<i64> {
        seq![
            self.position.x,
            self.position.y,
            self.position.z,
            self.tex_map.x,
            self.tex_map.y,
            self.normal.x,
            self.normal.y,
            self.normal.z,
        ]
    }

    /// The vertex as the eight scalars the shader reads: position, then
    /// texture coordinate, then normal.
    pub fn flatten(&self) -> (r: [i64; 8])
        ensures
            r@ == self.spec_flat(),
    {
        let r = [
            self.position.x,
            self.position.y,
            self.position.z,
            self.tex_map.x,
            self.tex_map.y,
            self.normal.x,
            self.normal.y,
            self.normal.z,
        ];
        proof {
            assert(r@ =~= self.spec_flat());
        }
        r
    }
}

/// One axis-aligned square face, given by two opposite corners that agree
/// on exactly one axis.
#[derive(Clone, Copy, PartialEq, Eq, Structural, Debug)]
pub struct Square {
    pub bottom_left: GlPosition,
    pub top_right: GlPosition,
}

impl Square {
    /// Corners inside the world bounds and at most a small face apart.
    pub open spec fn well_formed(self) -> bool {
        &&& self.bottom_left.bounded(COORD_LIMIT as int / 2)
        &&& self.top_right.bounded(COORD_LIMIT as int / 2)
        &&& -SIDE_LIMIT <= self.top_right.x - self.bottom_left.x <= SIDE_LIMIT
        &&& -SIDE_LIMIT <= self.top_right.y - self.bottom_left.y <= SIDE_LIMIT
        &&& -SIDE_LIMIT <= self.top_right.z - self.bottom_left.z <= SIDE_LIMIT
    }

    /// The four strip corners: low/high combinations along the two axes
    /// the corners differ on, ordered so consecutive triples form the two
    /// triangles of the face.
    pub open spec fn spec_vertex_stride(self) -> Seq<Vec3> {
        let minx = vstd::math::min(self.bottom_left.x as int, self.top_right.x as int) as i64;
        let maxx = vstd::math::max(self.bottom_left.x as int, self.top_right.x as int) as i64;
        let miny = vstd::math::min(self.bottom_left.y as int, self.top_right.y as int) as i64;
        let maxy = vstd::math::max(self.bottom_left.y as int, self.top_right.y as int) as i64;
        let minz = vstd::math::min(self.bottom_left.z as int, self.top_right.z as int) as i64;
        let maxz = vstd::math::max(self.bottom_left.z as int, self.top_right.z as int) as i64;
        if self.bottom_left.x == self.top_right.x {
            seq![
                Vec3 { x: minx, y: miny, z: minz },
                Vec3 { x: minx, y: maxy, z: minz },
                Vec3 { x: minx, y: miny, z: maxz },
                Vec3 { x: minx, y: maxy, z: maxz },
            ]
        } else if self.bottom_left.y == self.top_right.y {
            seq![
                Vec3 { x: minx, y: miny, z: minz },
                Vec3 { x: minx, y: miny, z: maxz },
                Vec3 { x: maxx, y: miny, z: minz },
                Vec3 { x: maxx, y: miny, z: maxz },
            ]
        } else {
            seq![
                Vec3 { x: minx, y: miny, z: maxz },
                Vec3 { x: minx, y: maxy, z: maxz },
                Vec3 { x: maxx, y: miny, z: maxz },
                Vec3 { x: maxx, y: maxy, z: maxz },
            ]
        }
    }

    pub fn as_vertex_stride(&self) -> (r: [GlPosition; 4])
        ensures
            r@ == self.spec_vertex_stride(),
    {
        let minx: i64 = if self.bottom_left.x < self.top_right.x {
            self.bottom_left.x
        } else {
            self.top_right.x
        };
        let maxx: i64 = if self.bottom_left.x < self.top_right.x {
            self.top_right.x
        } else {
            self.bottom_left.x
        };
        let miny: i64 = if self.bottom_left.y < self.top_right.y {
            self.bottom_left.y
        } else {
            self.top_right.y
        };
        let maxy: i64 = if self.bottom_left.y < self.top_right.y {
            self.top_right.y
        } else {
            self.bottom_left.y
        };
        let minz: i64 = if self.bottom_left.z < self.top_right.z {
            self.bottom_left.z
        } else {
            self.top_right.z
        };
        let maxz: i64 = if self.bottom_left.z < self.top_right.z {
            self.top_right.z
        } else {
            self.bottom_left.z
        };
        let r: [GlPosition; 4] = if self.bottom_left.x == self.top_right.x {
            [
                Vec3 { x: minx, y: miny, z: minz },
                Vec3 { x: minx, y: maxy, z: minz },
                Vec3 { x: minx, y: miny, z: maxz },
                Vec3 { x: minx, y: maxy, z: maxz },
            ]
        } else if self.bottom_left.y == self.top_right.y {
            [
                Vec3 { x: minx, y: miny, z: minz },
                Vec3 { x: minx, y: miny, z: maxz },
                Vec3 { x: maxx, y: miny, z: minz },
                Vec3 { x: maxx, y: miny, z: maxz },
            ]
        } else {
            [
                Vec3 { x: minx, y: miny, z: maxz },
                Vec3 { x: minx, y: maxy, z: maxz },
                Vec3 { x: maxx, y: miny, z: maxz },
                Vec3 { x: maxx, y: maxy, z: maxz },
            ]
        };
        proof {
            assert(r@ =~= self.spec_vertex_stride());
        }
        r
    }

    /// Whether the strip's second and third corners must swap so the face
    /// normal points outward, by the conventions the cube builder uses for
    /// its corner pairs.
    pub open spec fn spec_flip_winding(self) -> bool {
        if self.bottom_left.x == self.top_right.x {
            self.bottom_left.z < self.top_right.z
        } else if self.bottom_left.y == self.top_right.y {
            self.bottom_left.z < self.top_right.z
        } else {
            self.bottom_left.y > self.top_right.y
        }
    }

    /// The four textured, normal-carrying vertices of the face, winding
    /// corrected, each corner with its texture-map corner.
    pub open spec fn spec_vertex_data(self) -> Seq<SquareVertex> {
        let vs = self.spec_vertex_stride();
        let bl = vs[0];
        let tl = if self.spec_flip_winding() {
            vs[2]
        } else {
            vs[1]
        };
        let br = if self.spec_flip_winding() {
            vs[1]
        } else {
            vs[2]
        };
        let tr = vs[3];
        let normal = tl.spec_minus(bl).spec_cross(br.spec_minus(bl)).spec_normalize();
        seq![
            SquareVertex { position: bl, tex_map: Vec2 { x: 0, y: 0 }, normal },
            SquareVertex { position: tl, tex_map: Vec2 { x: 0, y: UNIT as i64 }, normal },
            SquareVertex { position: br, tex_map: Vec2 { x: UNIT as i64, y: 0 }, normal },
            SquareVertex { position: tr, tex_map: Vec2 { x: UNIT as i64, y: UNIT as i64 }, normal },
        ]
    }

    pub fn as_vertex_data(&self) -> (r: [SquareVertex; 4])
        requires
            self.well_formed(),
        ensures
            r@ == self.spec_vertex_data(),
    {
        let vs = self.as_vertex_stride();
        let bl = vs[0];
        let mut tl = vs[1];
        let mut br = vs[2];
        let tr = vs[3];
        let x_const = self.bottom_left.x == self.top_right.x;
        let y_const = self.bottom_left.y == self.top_right.y;
        let flip_winding = if x_const {
            self.bottom_left.z < self.top_right.z
        } else if y_const {
            self.bottom_left.z < self.top_right.z
        } else {
            self.bottom_left.y > self.top_right.y
        };
        if flip_winding {
            let t = tl;
            tl = br;
            br = t;
        }
        proof {
            crate::fixed::lemma_cross_bounded(
                tl.spec_minus(bl),
                br.spec_minus(bl),
                SIDE_LIMIT as int,
            );
        }
        let normal = tl.minus(bl).cross(br.minus(bl)).normalize();
        let r = [
            SquareVertex::new(bl, Vec2::new(0, 0), normal),
            SquareVertex::new(tl, Vec2::new(0, UNIT), normal),
            SquareVertex::new(br, Vec2::new(UNIT, 0), normal),
            SquareVertex::new(tr, Vec2::new(UNIT, UNIT), normal),
        ];
        proof {
            assert(r@ =~= self.spec_vertex_data());
        }
        r
    }
}

/// A decoded texture image: RGB rows, top to bottom.
#[derive(Clone, PartialEq, Debug)]
pub struct TextureData {
    pub width: u32,
    pub height: u32,
    pub pixels: Vec<u8>,
}

/// One square's sixteen corners' worth of vertex scalars: its four
/// vertices flattened in strip order.
pub open spec fn spec_square_flat(sq: Square) -> Seq<i64> {
    let vd = sq.spec_vertex_data();
    vd[0].spec_flat() + vd[1].spec_flat() + vd[2].spec_flat() + vd[3].spec_flat()
}

/// The whole vertex buffer of a square batch, in batch order.
pub open spec fn spec_squares_flat(s: Seq<Square>) -> Seq<i64>
    decreases s.len(),
{
    if s.len() == 0 {
        Seq::empty()
    } else {
        spec_square_flat(s[0]) + spec_squares_flat(s.subrange(1, s.len() as int))
    }
}

proof fn lemma_squares_flat_push(s: Seq<Square>, sq: Square)
    ensures
        spec_squares_flat(s.push(sq)) == spec_squares_flat(s) + spec_square_flat(sq),
    decreases s.len(),
{
    let p = s.push(sq);
    if s.len() == 0 {
        assert(p[0] == sq);
        assert(p.subrange(1, p.len() as int) =~= Seq::<Square>::empty());
        assert(spec_squares_flat(Seq::<Square>::empty()) == Seq::<i64>::empty());
        assert(spec_square_flat(sq) + Seq::<i64>::empty() =~= spec_square_flat(sq));
        assert(spec_squares_flat(s) + spec_square_flat(sq) =~= spec_square_flat(sq));
    } else {
        assert(p[0] == s[0]);
        assert(p.subrange(1, p.len() as int) =~= s.subrange(1, s.len() as int).push(sq));
        lemma_squares_flat_push(s.subrange(1, s.len() as int), sq);
        assert(spec_square_flat(s[0]) + (spec_squares_flat(s.subrange(1, s.len() as int))
            + spec_square_flat(sq)) =~= spec_squares_flat(s) + spec_square_flat(sq));
    }
}

/// Appends one vertex's eight scalars.
fn push_flat(out: &mut Vec<i64>, v: &SquareVertex)
    ensures
        final (out)@ == old(out)@ + v.spec_flat(),
{
    out.push(v.position.x);
    out.push(v.position.y);
    out.push(v.position.z);
    out.push(v.tex_map.x);
    out.push(v.tex_map.y);
    out.push(v.normal.x);
    out.push(v.normal.y);
    out.push(v.normal.z);
    proof {
        assert(out@ =~= old(out)@ + v.spec_flat());
    }
}

/// A batch of textured squares drawn as one entity.
pub struct TexSquare {
    shader: Option<Shader>,
    instances: Vec<Square>,
    texture: Option<TextureData>,
}

pub const TEX_SQUARE_VERTEX_SHADER: &'static str = "
#version 410 core

uniform mat4 model;
uniform mat4 view;
uniform mat4 projection;

layout(location = 0) in vec3 position;
layout(location = 1) in vec2 textureCoord;
layout(location = 2) in vec3 normal;

out vec2 TexCoord;
out vec3 fragNorm;
out vec3 fragPos;

void main() {
    gl_Position = projection * view * model * vec4(position, 1.0);
    TexCoord = textureCoord;
    fragPos = vec3(model * vec4(position, 1.0));
    fragNorm = mat3(transpose(inverse(model))) * normal;
}
";

pub const TEX_SQUARE_FRAGMENT_SHADER: &'static str = "
#version 410 core

layout(location = 0) out vec4 FragColor;

uniform vec3 uLightPos;
uniform vec3 uEyePos;

uniform float uFogNear;
uniform float uFogFar;
uniform vec3 uFogColor;

uniform float uAmbientStrenght;
uniform float uSpecularStrength;

in vec2 TexCoord;
in vec3 fragNorm;
in vec3 fragPos;

uniform sampler2D tex;

void main() {
    vec3 norm = normalize(fragNorm);

    vec3 lightDir = normalize(uLightPos - fragPos);
    float diffuse = max(dot(norm, lightDir), 0.0);

    vec3 viewDir = normalize(uEyePos - fragPos);
    vec3 reflectDir = reflect(-lightDir, norm);
    float spec = pow(max(dot(viewDir, reflectDir), 0.0), 32);
    float specular = uSpecularStrength * spec;

    vec4 albedo = texture(tex, TexCoord);
    vec3 sceneColor = albedo.rgb * (uAmbientStrenght + diffuse + specular);

    float d = length(uEyePos - fragPos);
    float f = clamp((uFogFar - d) / (uFogFar - uFogNear), 0.0, 1.0);

    vec3 finalRgb = mix(uFogColor, sceneColor, f);

    FragColor = vec4(finalRgb, 1.0);
}
";

impl TexSquare {
    pub closed spec fn spec_instances(self) -> Seq<Square> {
        self.instances@
    }

    pub closed spec fn spec_texture(self) -> Option<TextureData> {
        self.texture
    }

    pub fn new(instances: Vec<Square>, texture: Option<TextureData>) -> (r: TexSquare)
        requires
            instances@.len() <= MAX_SQUARES,
            forall|i: int|
                0 <= i < instances@.len() ==> (#[trigger] instances@[i]).well_formed(),
        ensures
            r.spec_shader() is None,
            r.spec_init_ready(),
            r.spec_instances() == instances@,
            r.spec_texture() == texture,
    {
        TexSquare { shader: None, instances, texture }
    }
}

impl TexSquare {
    /// Exactly the commands one `init` records, given the first object
    /// identifier the recorder will hand out: build and activate the
    /// program, set up the vertex array and buffer and upload the batch's
    /// vertex data, upload the identity-filled transforms, describe the
    /// three vertex fields, upload the texture if the batch has one, and
    /// apply the initial uniforms once.
    pub open spec fn spec_init_cmds(
        self,
        mat3d: Mat3DUpdate,
        initial_uniforms: Seq<UniformKind>,
        first_id: u32,
    ) -> Seq<GlCmdV> {
        let program = first_id;
        let vao = (first_id + 1) as u32;
        let vbo = (first_id + 2) as u32;
        seq![
            GlCmdV::BuildProgram {
                program,
                vertex_src: TEX_SQUARE_VERTEX_SHADER,
                fragment_src: TEX_SQUARE_FRAGMENT_SHADER,
            },
            GlCmdV::UseProgram { program },
            GlCmdV::CreateVertexArray { vao },
            GlCmdV::BindVertexArray { vao },
            GlCmdV::CreateBuffer { buf: vbo },
            GlCmdV::BindBuffer { target: BufferTarget::Array, buf: vbo },
            GlCmdV::BufferData {
                target: BufferTarget::Array,
                data: spec_squares_flat(self.spec_instances()),
            },
        ] + mat3d.spec_as_init().spec_set_cmds(program) + seq![
            GlCmdV::VertexAttrib { program, name: "position", size: 3, stride: 8, offset: 0 },
            GlCmdV::VertexAttrib { program, name: "textureCoord", size: 2, stride: 8, offset: 3 },
            GlCmdV::VertexAttrib { program, name: "normal", size: 3, stride: 8, offset: 5 },
        ] + (match self.spec_texture() {
            Some(img) => seq![
                GlCmdV::CreateTexture { tex: (first_id + 3) as u32 },
                GlCmdV::BindTexture { target: TEXTURE_2D, tex: (first_id + 3) as u32 },
                GlCmdV::TexImage2d { width: img.width, height: img.height, pixels: img.pixels@ },
                GlCmdV::GenerateMipmap,
            ],
            None => Seq::<GlCmdV>::empty(),
        }) + spec_uniforms_cmds(initial_uniforms, program)
    }
}

impl GlslPass for TexSquare {
    closed spec fn spec_shader(&self) -> Option<Shader> {
        self.shader
    }

    closed spec fn spec_init_ready(&self) -> bool {
        &&& self.instances@.len() <= MAX_SQUARES
        &&& forall|i: int|
            0 <= i < self.instances@.len() ==> (#[trigger] self.instances@[i]).well_formed()
    }

    closed spec fn spec_is_updated(
        &self,
        post: &Self,
        mat3d: Mat3DUpdate,
        uniforms: Seq<UniformKind>,
        now_ms: u64,
    ) -> bool {
        &&& post.instances == self.instances
        &&& post.texture == self.texture
        &&& post.shader == match self.shader {
            None => self.shader,
            Some(sh) => Some(
                Shader {
                    model_transform: match mat3d.model {
                        Some(m) => m,
                        None => sh.model_transform,
                    },
                    ..sh
                },
            ),
        }
    }

    closed spec fn spec_update_cmds(
        &self,
        mat3d: Mat3DUpdate,
        uniforms: Seq<UniformKind>,
        now_ms: u64,
    ) -> Seq<GlCmdV> {
        match self.shader {
            None => Seq::<GlCmdV>::empty(),
            Some(sh) => mat3d.spec_set_cmds(sh.program) + spec_uniforms_cmds(uniforms, sh.program),
        }
    }

    proof fn lemma_uninit_update_records_nothing(
        &self,
        post: &Self,
        mat3d: Mat3DUpdate,
        uniforms: Seq<UniformKind>,
        now_ms: u64,
    ) {
    }

    proof fn lemma_update_keeps_wf(
        &self,
        post: &Self,
        mat3d: Mat3DUpdate,
        uniforms: Seq<UniformKind>,
        now_ms: u64,
    ) {
    }

    fn init(
        &mut self,
        rec: &mut GlRecorder,
        mat3d: Mat3DUpdate,
        initial_uniforms: &Vec<UniformKind>,
    )
        ensures
            final (self).spec_instances() == old(self).spec_instances(),
            final (self).spec_texture() == old(self).spec_texture(),
            final (rec).views() == old(rec).views() + old(self).spec_init_cmds(
                mat3d,
                initial_uniforms@,
                old(rec).next_id,
            ),
            final (self).spec_shader() matches Some(sh) && sh.program == old(rec).next_id
                && sh.drawables@ == seq![
                Drawable::Array(
                    Array {
                        vao: (old(rec).next_id + 1) as u32,
                        vbo: (old(rec).next_id + 2) as u32,
                        len: old(self).spec_instances().len() as usize,
                        offset: 4,
                        count: 4,
                    },
                ),
            ] && Some(sh.model_transform) == mat3d.spec_as_init().model && (match old(
                self,
            ).spec_texture() {
                Some(_) => sh.tex == Some(
                    Tex { tex: (old(rec).next_id + 3) as u32, target: TEXTURE_2D },
                ),
                None => sh.tex is None,
            }),
    {
        let ghost old_model = mat3d.model;
        let ghost old_view = mat3d.view;
        let ghost old_projection = mat3d.projection;
        let mat3d = mat3d.as_init();
        let mut vertex_data: Vec<i64> = Vec::new();
        let n = self.instances.len();
        let mut i: usize = 0;
        while i < n
            invariant
                n == self.instances@.len(),
                0 <= i <= n,
                forall|k: int|
                    0 <= k < self.instances@.len() ==> (
                    #[trigger] self.instances@[k]).well_formed(),
                vertex_data@ == spec_squares_flat(self.instances@.subrange(0, i as int)),
            decreases n - i,
        {
            proof {
                assert(self.instances@.subrange(0, i as int).push(self.instances@[i as int])
                    =~= self.instances@.subrange(0, i as int + 1));
                lemma_squares_flat_push(
                    self.instances@.subrange(0, i as int),
                    self.instances@[i as int],
                );
            }
            let sv = self.instances[i].as_vertex_data();
            push_flat(&mut vertex_data, &sv[0]);
            push_flat(&mut vertex_data, &sv[1]);
            push_flat(&mut vertex_data, &sv[2]);
            push_flat(&mut vertex_data, &sv[3]);
            proof {
                assert(vertex_data@ =~= spec_squares_flat(
                    self.instances@.subrange(0, i as int + 1),
                ));
            }
            i = i + 1;
        }
        proof {
            assert(self.instances@.subrange(0, n as int) =~= self.instances@);
        }
        let program = build_program(rec, TEX_SQUARE_VERTEX_SHADER, TEX_SQUARE_FRAGMENT_SHADER);
        rec.record(GlCmd::UseProgram { program });
        let vao = rec.fresh_id();
        rec.record(GlCmd::CreateVertexArray { vao });
        rec.record(GlCmd::BindVertexArray { vao });
        let vbo = rec.fresh_id();
        rec.record(GlCmd::CreateBuffer { buf: vbo });
        rec.record(GlCmd::BindBuffer { target: BufferTarget::Array, buf: vbo });
        rec.record(GlCmd::BufferData { target: BufferTarget::Array, data: vertex_data });
        mat3d.set_uniforms(rec, program);
        rec.record(GlCmd::VertexAttrib { program, name: "position", size: 3, stride: 8, offset: 0 });
        rec.record(GlCmd::VertexAttrib {
            program,
            name: "textureCoord",
            size: 2,
            stride: 8,
            offset: 3,
        });
        rec.record(GlCmd::VertexAttrib { program, name: "normal", size: 3, stride: 8, offset: 5 });
        let tex: Option<Tex> = match &self.texture {
            Some(img) => {
                let t = rec.fresh_id();
                rec.record(GlCmd::CreateTexture { tex: t });
                rec.record(GlCmd::BindTexture { target: TEXTURE_2D, tex: t });
                rec.record(GlCmd::TexImage2d {
                    width: img.width,
                    height: img.height,
                    pixels: img.pixels.clone(),
                });
                rec.record(GlCmd::GenerateMipmap);
                Some(Tex { tex: t, target: TEXTURE_2D })
            },
            None => None,
        };
        apply_uniforms(rec, initial_uniforms, program);
        let model_transform = match mat3d.model {
            Some(m) => m,
            None => Mat4::identity(),
        };
        let drawable = Drawable::Array(Array { vao, vbo, len: n, offset: 4, count: 4 });
        proof {
            assert(n * 4 <= usize::MAX) by (nonlinear_arith)
                requires
                    0 <= n <= 0x10_0000;
        }
        let mut drawables: Vec<Drawable> = Vec::new();
        drawables.push(drawable);
        proof {
            assert(drawables@ =~= seq![drawable]);
        }
        self.shader = Some(Shader { program, model_transform, drawables, tex });
        proof {
            assert(rec.views() =~= old(rec).views() + old(self).spec_init_cmds(
                Mat3DUpdate { model: old_model, view: old_view, projection: old_projection },
                initial_uniforms@,
                old(rec).next_id,
            ));
            assert(old(rec).views().is_prefix_of(rec.views())) by {
                assert(rec.views().subrange(0, old(rec).views().len() as int) =~= old(
                    rec,
                ).views());
            }
        }
    }

    fn update(
        &mut self,
        rec: &mut GlRecorder,
        mat3d: Mat3DUpdate,
        to_set_uniforms: &Vec<UniformKind>,
        now_ms: u64,
    ) {
        match &mut self.shader {
            None => {},
            Some(sh) => {
                if let Some(model) = mat3d.model {
                    sh.model_transform = model;
                }
                let program = sh.program;
                mat3d.set_uniforms(rec, program);
                apply_uniforms(rec, to_set_uniforms, program);
            },
        }
    }

    fn get_shader(&self) -> (r: Option<&Shader>) {
        self.shader.as_ref()
    }
}

} // verus!
