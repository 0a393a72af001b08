//! Scene composition and the per-frame orchestration contract.
//!
//! [`Scene::build`] places the terrain columns, the decoration entities
//! and the sun from a sampled height field and initializes them all
//! against one recorder. [`Scene::advance_frame`] is the frame protocol:
//! integrate the camera, build the view bundle and the frame uniforms,
//! clear, draw the sun, draw the rest with the queued uniforms merged in,
//! then clear the queue — exactly once per frame.

use crate::camera::{Camera, MAX_FRAME_MS};
use crate::entities::SceneEntity;
use crate::fixed::{Vec3, UNIT};
use crate::gl::{GlCmdV, GlRecorder};
use crate::helpers::{GlPosition, Mat3DUpdate, RendererControl};
use crate::hello_triangle::{spec_triangle_instance, HelloTriangle};
use crate::mat4::Mat4;
use crate::renderer::{
    spec_collection_pass_cmds, spec_entity_pass_cmds, spec_entity_stepped, Renderer,
};
use crate::shader::{spec_shader_wf_opt, GlslPass};
use crate::sun::Sun;
use crate::terrain_builder::{spec_height, HeightField};
use crate::tex_cube::{spec_cubes_faces, TexCube};
use crate::tex_square::TextureData;
use crate::uniform::{EnabledLighting, EyePos, Fog, LightPos, Lighting, UniformKind};
use crate::utah_teapot::{MeshModel, UtahTeapot, MAX_MESH_MODELS};
use vstd::prelude::*;

verus! {

/// The terrain floor's side, in grid columns.
pub const FLOOR_SIDE: usize = 50;

/// The largest amplitude basis the scene accepts for its height field;
/// bounds the terrain's column count.
pub const MAX_SCENE_AMPLITUDE: usize = 64;

/// The background color: a dark gray.
pub open spec fn spec_clear_color() -> Vec3 {
    Vec3 { x: 100_000, y: 100_000, z: 100_000 }
}

/// One terrain column's cube centers: the grid cell at whole-unit
/// coordinates, stacked from the ground to the column's top inclusive.
pub open spec fn spec_column_positions(x: int, z: int, top: int) -> Seq<Vec3> {
    Seq::new(
        (top + 1) as nat,
        |y: int|
            Vec3 { x: (x * UNIT) as i64, y: (y * UNIT) as i64, z: (z * UNIT) as i64 },
    )
}

/// The floor's cube centers over its first `cells` grid cells, row-major,
/// each cell stacked to the height its noise sample gives.
pub open spec fn spec_terrain_positions(basis: int, samples: Seq<i64>, cells: int) -> Seq<Vec3>
    decreases cells,
{
    if cells <= 0 {
        Seq::<Vec3>::empty()
    } else {
        spec_terrain_positions(basis, samples, cells - 1) + spec_column_positions(
            (cells - 1) / (FLOOR_SIDE as int),
            (cells - 1) % (FLOOR_SIDE as int),
            spec_height(basis, samples[cells - 1] as int),
        )
    }
}

/// A prefix of a prefix is a prefix.
proof fn lemma_prefix_trans(a: Seq<GlCmdV>, b: Seq<GlCmdV>, c: Seq<GlCmdV>)
    requires
        a.is_prefix_of(b),
        b.is_prefix_of(c),
    ensures
        a.is_prefix_of(c),
{
    assert(a =~= c.subrange(0, a.len() as int));
}

/// The whole running scene.
pub struct Scene {
    pub camera: Camera,
    pub sun: Sun,
    pub entities: Vec<SceneEntity>,
    /// Uniforms queued from input handling, drained into the next frame.
    pub next_frame_entities_uniforms: Vec<UniformKind>,
    pub renderer: Renderer,
}

impl Scene {
    pub open spec fn well_formed(self) -> bool {
        &&& self.camera.well_formed()
        &&& spec_shader_wf_opt(self.sun.spec_shader())
        &&& forall|i: int|
            0 <= i < self.entities@.len() ==> spec_shader_wf_opt(
                (#[trigger] self.entities@[i]).spec_shader(),
            )
    }

    /// Builds and initializes the whole scene: the terrain's cube columns
    /// from the height field's samples, one animated triangle above the
    /// middle, three teapots on the surface, and the orbiting sun, with
    /// the camera standing on the middle column.
    #[verifier::rlimit(100)]
    pub fn build(
        rec: &mut GlRecorder,
        hf: HeightField,
        samples: &Vec<i64>,
        dirt_tex: Option<TextureData>,
        sun_tex: Option<TextureData>,
        teapot_models_a: Vec<MeshModel>,
        teapot_models_b: Vec<MeshModel>,
        teapot_models_c: Vec<MeshModel>,
        width: u32,
        height: u32,
    ) -> (s: Scene)
        requires
            hf.well_formed(),
            hf.amplitude_basis <= MAX_SCENE_AMPLITUDE,
            samples@.len() == FLOOR_SIDE * FLOOR_SIDE,
            teapot_models_a@.len() <= MAX_MESH_MODELS,
            teapot_models_b@.len() <= MAX_MESH_MODELS,
            teapot_models_c@.len() <= MAX_MESH_MODELS,
            forall|i: int|
                0 <= i < teapot_models_a@.len() ==> (#[trigger] teapot_models_a@[i]).well_formed(),
            forall|i: int|
                0 <= i < teapot_models_b@.len() ==> (#[trigger] teapot_models_b@[i]).well_formed(),
            forall|i: int|
                0 <= i < teapot_models_c@.len() ==> (#[trigger] teapot_models_c@[i]).well_formed(),
            width >= 1,
            1 <= height <= width as int * UNIT,
            old(rec).next_id <= 0xD000_0000u32,
        ensures
            s.well_formed(),
            s.entities@.len() == 5,
            forall|i: int|
                0 <= i < s.entities@.len() ==> (#[trigger] s.entities@[i]).spec_shader() is Some,
            s.sun.spec_shader() is Some,
            s.next_frame_entities_uniforms@.len() == 0,
            s.camera == (Camera {
                pos: Vec3 {
                    x: (25 * UNIT as int) as i64,
                    y: ((hf.amplitude_basis + 1) * UNIT as int) as i64,
                    z: (25 * UNIT as int) as i64,
                },
                ..Camera::spec_default()
            }),
            s.renderer.spec_window_dimensions() == (width, height),
            s.renderer.spec_clear_color() == spec_clear_color(),
            old(rec).views().is_prefix_of(final (rec).views()),
            ({
                let basis = hf.amplitude_basis as int;
                let middle = 25 * UNIT as int;
                let red = Vec3 { x: UNIT as i64, y: 0, z: 0 };
                &&& s.entities@[0] matches SceneEntity::Triangle(t) && t.spec_instances() == seq![
                    spec_triangle_instance(
                        Vec3 {
                            x: (middle + 3 * UNIT as int) as i64,
                            y: ((basis + 1) * UNIT as int) as i64,
                            z: (middle + 3 * UNIT as int) as i64,
                        },
                        UNIT as int,
                    ),
                ]
                &&& s.entities@[1] matches SceneEntity::Cube(c) && c.spec_squares().spec_instances()
                    == spec_cubes_faces(
                    spec_terrain_positions(
                        basis,
                        samples@,
                        FLOOR_SIDE as int * FLOOR_SIDE as int,
                    ),
                    UNIT as int,
                ) && c.spec_squares().spec_texture() == dirt_tex
                &&& s.entities@[2] matches SceneEntity::Teapot(p) && p.spec_position() == (Vec3 {
                    x: (middle + 3 * UNIT as int) as i64,
                    y: (spec_height(basis, samples@[28 * FLOOR_SIDE as int + 30] as int)
                        * UNIT as int + UNIT as int / 2) as i64,
                    z: (middle + 5 * UNIT as int) as i64,
                }) && p.spec_color() == red && p.spec_models() == teapot_models_a@
                &&& s.entities@[3] matches SceneEntity::Teapot(p) && p.spec_position() == (Vec3 {
                    x: (middle - 5 * UNIT as int) as i64,
                    y: (spec_height(basis, samples@[20 * FLOOR_SIDE as int + 27] as int)
                        * UNIT as int + UNIT as int / 2) as i64,
                    z: (middle + 2 * UNIT as int) as i64,
                }) && p.spec_color() == red && p.spec_models() == teapot_models_b@
                &&& s.entities@[4] matches SceneEntity::Teapot(p) && p.spec_position() == (Vec3 {
                    x: middle as i64,
                    y: (spec_height(basis, samples@[25 * FLOOR_SIDE as int + 25] as int)
                        * UNIT as int + UNIT as int / 2) as i64,
                    z: middle as i64,
                }) && p.spec_color() == red && p.spec_models() == teapot_models_c@
                &&& s.sun.spec_initial_pos() == (Vec3 {
                    x: middle as i64,
                    y: ((basis + 10) * UNIT as int) as i64,
                    z: middle as i64,
                })
                &&& s.sun.spec_square().spec_texture() == sun_tex
            }),
    {
        let clear_color = Vec3::new(100_000, 100_000, 100_000);
        let renderer = Renderer::new(rec, (width, height), clear_color);

        let basis = hf.amplitude_basis;
        let mut cubes_floor: Vec<GlPosition> = Vec::new();
        let mut x: usize = 0;
        while x < FLOOR_SIDE
            invariant
                hf.well_formed(),
                hf.amplitude_basis == basis <= MAX_SCENE_AMPLITUDE,
                samples@.len() == FLOOR_SIDE * FLOOR_SIDE,
                0 <= x <= FLOOR_SIDE,
                cubes_floor@.len() <= x * FLOOR_SIDE * (MAX_SCENE_AMPLITUDE + 1),
                cubes_floor@ == spec_terrain_positions(
                    basis as int,
                    samples@,
                    x as int * FLOOR_SIDE as int,
                ),
                forall|k: int|
                    0 <= k < cubes_floor@.len() ==> crate::tex_cube::spec_cube_pos_wf(
                        #[trigger] cubes_floor@[k],
                        UNIT as int,
                    ),
            decreases FLOOR_SIDE - x,
        {
            let mut z: usize = 0;
            while z < FLOOR_SIDE
                invariant
                    hf.well_formed(),
                    hf.amplitude_basis == basis <= MAX_SCENE_AMPLITUDE,
                    samples@.len() == FLOOR_SIDE * FLOOR_SIDE,
                    0 <= z <= FLOOR_SIDE,
                    x < FLOOR_SIDE,
                    cubes_floor@.len() <= (x * FLOOR_SIDE + z) * (MAX_SCENE_AMPLITUDE + 1),
                    cubes_floor@ == spec_terrain_positions(
                        basis as int,
                        samples@,
                        x as int * FLOOR_SIDE as int + z as int,
                    ),
                    forall|k: int|
                        0 <= k < cubes_floor@.len() ==> crate::tex_cube::spec_cube_pos_wf(
                            #[trigger] cubes_floor@[k],
                            UNIT as int,
                        ),
                decreases FLOOR_SIDE - z,
            {
                let column_top = hf.height_from_sample(samples[x * FLOOR_SIDE + z]);
                let ghost cells = x as int * FLOOR_SIDE as int + z as int;
                let ghost base = cubes_floor@;
                let mut y: usize = 0;
                while y <= column_top
                    invariant
                        0 <= y <= column_top + 1,
                        column_top <= basis <= MAX_SCENE_AMPLITUDE,
                        column_top == spec_height(basis as int, samples@[cells] as int),
                        cells == x as int * FLOOR_SIDE as int + z as int,
                        samples@.len() == FLOOR_SIDE * FLOOR_SIDE,
                        x < FLOOR_SIDE,
                        z < FLOOR_SIDE,
                        base == spec_terrain_positions(basis as int, samples@, cells),
                        cubes_floor@.len() <= (x * FLOOR_SIDE + z) * (MAX_SCENE_AMPLITUDE + 1) + y,
                        cubes_floor@ == base + spec_column_positions(
                            x as int,
                            z as int,
                            column_top as int,
                        ).subrange(0, y as int),
                        forall|k: int|
                            0 <= k < cubes_floor@.len() ==> crate::tex_cube::spec_cube_pos_wf(
                                #[trigger] cubes_floor@[k],
                                UNIT as int,
                            ),
                    decreases column_top + 1 - y,
                {
                    cubes_floor.push(
                        Vec3::new((x as i64) * UNIT, (y as i64) * UNIT, (z as i64) * UNIT),
                    );
                    proof {
                        assert(cubes_floor@ =~= base + spec_column_positions(
                            x as int,
                            z as int,
                            column_top as int,
                        ).subrange(0, y as int + 1));
                    }
                    y = y + 1;
                }
                proof {
                    assert((x as int * FLOOR_SIDE as int + z as int + 1) * (
                    MAX_SCENE_AMPLITUDE as int + 1) == (x as int * FLOOR_SIDE as int + z as int) * (
                    MAX_SCENE_AMPLITUDE as int + 1) + (MAX_SCENE_AMPLITUDE as int + 1))
                        by (nonlinear_arith);
                    assert(spec_column_positions(x as int, z as int, column_top as int).subrange(
                        0,
                        y as int,
                    ) =~= spec_column_positions(x as int, z as int, column_top as int));
                    vstd::arithmetic::div_mod::lemma_fundamental_div_mod_converse(
                        cells,
                        FLOOR_SIDE as int,
                        x as int,
                        z as int,
                    );
                    assert(cubes_floor@ =~= spec_terrain_positions(
                        basis as int,
                        samples@,
                        cells + 1,
                    ));
                }
                z = z + 1;
            }
            proof {
                assert((x as int + 1) * FLOOR_SIDE as int * (MAX_SCENE_AMPLITUDE as int + 1) == (
                x as int * FLOOR_SIDE as int + FLOOR_SIDE as int) * (MAX_SCENE_AMPLITUDE as int
                    + 1)) by (nonlinear_arith);
            }
            x = x + 1;
        }
        proof {
            assert(FLOOR_SIDE as int * FLOOR_SIDE as int * (MAX_SCENE_AMPLITUDE as int + 1)
                <= crate::tex_cube::MAX_CUBES as int) by (nonlinear_arith)
                requires
                    FLOOR_SIDE == 50,
                    MAX_SCENE_AMPLITUDE == 64,
                    crate::tex_cube::MAX_CUBES as int == 0x10_0000 as int / 6;
        }
        let dirt = TexCube::new(cubes_floor, UNIT, dirt_tex);

        let middle: i64 = (FLOOR_SIDE as i64) / 2 * UNIT;
        let top_y: i64 = ((basis as i64) + 1) * UNIT;
        let mut triangle_spots: Vec<(GlPosition, i64)> = Vec::new();
        triangle_spots.push((Vec3::new(middle + 3 * UNIT, top_y, middle + 3 * UNIT), UNIT));
        proof {
            assert(triangle_spots@ =~= seq![
                (
                    Vec3 {
                        x: (middle + 3 * UNIT) as i64,
                        y: top_y as i64,
                        z: (middle + 3 * UNIT) as i64,
                    },
                    UNIT as i64,
                ),
            ]);
        }
        let triangle = HelloTriangle::new(triangle_spots);
        proof {
            assert(triangle.spec_instances() =~= seq![
                spec_triangle_instance(
                    Vec3 {
                        x: (middle + 3 * UNIT) as i64,
                        y: top_y as i64,
                        z: (middle + 3 * UNIT) as i64,
                    },
                    UNIT as int,
                ),
            ]);
        }

        let pot_a_h = hf.height_from_sample(samples[28 * FLOOR_SIDE + 30]);
        let pot_b_h = hf.height_from_sample(samples[20 * FLOOR_SIDE + 27]);
        let pot_c_h = hf.height_from_sample(samples[25 * FLOOR_SIDE + 25]);
        let red = Vec3::new(UNIT, 0, 0);
        let pot_a = UtahTeapot::new(
            Vec3::new(middle + 3 * UNIT, (pot_a_h as i64) * UNIT + UNIT / 2, middle + 5 * UNIT),
            red,
            teapot_models_a,
        );
        let pot_b = UtahTeapot::new(
            Vec3::new(middle - 5 * UNIT, (pot_b_h as i64) * UNIT + UNIT / 2, middle + 2 * UNIT),
            red,
            teapot_models_b,
        );
        let pot_c = UtahTeapot::new(
            Vec3::new(middle, (pot_c_h as i64) * UNIT + UNIT / 2, middle),
            red,
            teapot_models_c,
        );

        let mut sun = Sun::new(
            Vec3::new(middle, ((basis as i64) + 10) * UNIT, middle),
            sun_tex,
        );

        let mat3d = Mat3DUpdate::default_from_dimensions(width, height);
        let mut init_uniforms: Vec<UniformKind> = Vec::new();
        init_uniforms.push(UniformKind::Lighting(Lighting::new()));
        init_uniforms.push(UniformKind::Fog(Fog::new(clear_color)));
        init_uniforms.push(UniformKind::EnabledLighting(EnabledLighting::enabled()));

        let mut triangle = triangle;
        let mut dirt = dirt;
        let mut pot_a = pot_a;
        let mut pot_b = pot_b;
        let mut pot_c = pot_c;
        proof {
            assert(old(rec).views().is_prefix_of(rec.views())) by {
                assert(old(rec).views() =~= rec.views().subrange(
                    0,
                    old(rec).views().len() as int,
                ));
            }
        }
        let ghost v1 = rec.views();
        triangle.init(rec, mat3d, &init_uniforms);
        proof {
            lemma_prefix_trans(old(rec).views(), v1, rec.views());
        }
        let ghost v2 = rec.views();
        dirt.init(rec, mat3d, &init_uniforms);
        proof {
            lemma_prefix_trans(old(rec).views(), v2, rec.views());
        }
        let ghost v3 = rec.views();
        pot_a.init(rec, mat3d, &init_uniforms);
        proof {
            lemma_prefix_trans(old(rec).views(), v3, rec.views());
        }
        let ghost v4 = rec.views();
        pot_b.init(rec, mat3d, &init_uniforms);
        proof {
            lemma_prefix_trans(old(rec).views(), v4, rec.views());
        }
        let ghost v5 = rec.views();
        pot_c.init(rec, mat3d, &init_uniforms);
        proof {
            lemma_prefix_trans(old(rec).views(), v5, rec.views());
        }
        let ghost v6 = rec.views();
        let no_uniforms: Vec<UniformKind> = Vec::new();
        sun.init(rec, mat3d, &no_uniforms);
        proof {
            lemma_prefix_trans(old(rec).views(), v6, rec.views());
        }

        let ghost gtriangle = triangle;
        let ghost gdirt = dirt;
        let ghost gpot_a = pot_a;
        let ghost gpot_b = pot_b;
        let ghost gpot_c = pot_c;
        let mut entities: Vec<SceneEntity> = Vec::new();
        entities.push(SceneEntity::Triangle(triangle));
        entities.push(SceneEntity::Cube(dirt));
        entities.push(SceneEntity::Teapot(pot_a));
        entities.push(SceneEntity::Teapot(pot_b));
        entities.push(SceneEntity::Teapot(pot_c));
        proof {
            assert(entities@ =~= seq![
                SceneEntity::Triangle(gtriangle),
                SceneEntity::Cube(gdirt),
                SceneEntity::Teapot(gpot_a),
                SceneEntity::Teapot(gpot_b),
                SceneEntity::Teapot(gpot_c),
            ]);
        }

        let camera = Camera::from_pos(Vec3::new(middle, top_y, middle));

        Scene {
            camera,
            sun,
            entities,
            next_frame_entities_uniforms: Vec::new(),
            renderer,
        }
    }

    /// Queues a renderer control request: the matching uniform, if the
    /// request has one, joins the next frame's uniform batch.
    pub fn queue_control(&mut self, control: RendererControl)
        ensures
            final (self).camera == old(self).camera,
            final (self).sun == old(self).sun,
            final (self).entities == old(self).entities,
            final (self).renderer == old(self).renderer,
            match control {
                RendererControl::EnableLight => final (self).next_frame_entities_uniforms@ == old(
                    self,
                ).next_frame_entities_uniforms@.push(
                    UniformKind::EnabledLighting(EnabledLighting { enabled: true }),
                ),
                RendererControl::DisableLight => final (self).next_frame_entities_uniforms@ == old(
                    self,
                ).next_frame_entities_uniforms@.push(
                    UniformKind::EnabledLighting(EnabledLighting { enabled: false }),
                ),
                _ => final (self).next_frame_entities_uniforms@ == old(
                    self,
                ).next_frame_entities_uniforms@,
            },
    {
        if let Some(u) = control.to_uniform() {
            self.next_frame_entities_uniforms.push(u);
        }
    }

    /// Advances one frame: integrates the camera over the elapsed time,
    /// builds the view bundle (model and projection unchanged) and the
    /// frame uniforms — the sun's position as the light, the camera's as
    /// the eye — clears, draws the sun, draws every other entity with the
    /// queued uniforms merged in ahead of the frame uniforms, and drains
    /// the queue.
    pub fn advance_frame(&mut self, rec: &mut GlRecorder, dt_ms: u64, now_ms: u64)
        requires
            old(self).well_formed(),
            dt_ms <= MAX_FRAME_MS,
        ensures
            final (self).well_formed(),
            final (self).renderer == old(self).renderer,
            final (self).next_frame_entities_uniforms@.len() == 0,
            final (self).camera == (Camera {
                pos: old(self).camera.spec_stepped_pos(dt_ms as int),
                ..old(self).camera
            }),
            final (self).entities@.len() == old(self).entities@.len(),
            ({
                let cam = final (self).camera;
                let bundle = Mat3DUpdate {
                    model: None,
                    view: Some(
                        Mat4::spec_look_to(
                            cam.pos,
                            Camera::spec_front(cam.yaw as int, cam.pitch as int),
                            cam.up,
                        ),
                    ),
                    projection: None,
                };
                let base = seq![
                    UniformKind::LightPos(LightPos { pos: old(self).sun.spec_actual_pos() }),
                    UniformKind::EyePos(EyePos { pos: cam.pos }),
                ];
                let merged = old(self).next_frame_entities_uniforms@ + base;
                &&& spec_entity_stepped(old(self).sun, final (self).sun, bundle, base, now_ms)
                &&& forall|i: int|
                    0 <= i < old(self).entities@.len() ==> spec_entity_stepped(
                        old(self).entities@[i],
                        #[trigger] final (self).entities@[i],
                        bundle,
                        merged,
                        now_ms,
                    )
                &&& final (rec).views() == old(rec).views() + seq![
                    GlCmdV::ClearColor { color: old(self).renderer.spec_clear_color() },
                    GlCmdV::Clear,
                ] + spec_entity_pass_cmds(old(self).sun, final (self).sun, bundle, base, now_ms)
                    + spec_collection_pass_cmds(
                    old(self).entities@,
                    final (self).entities@,
                    bundle,
                    merged,
                    now_ms,
                )
            }),
    {
        self.camera.update(dt_ms);
        let view = self.camera.as_view();
        let bundle = Mat3DUpdate { model: None, view: Some(view), projection: None };
        let mut base: Vec<UniformKind> = Vec::new();
        base.push(UniformKind::LightPos(LightPos::new(self.sun.get_pos())));
        base.push(UniformKind::EyePos(EyePos::new(self.camera.pos)));
        self.renderer.clear(rec);
        let ghost sun_pre = self.sun;
        self.sun.update_draw(rec, bundle, &base, now_ms);
        proof {
            if sun_pre.spec_shader() is Some {
                sun_pre.lemma_update_keeps_wf(&self.sun, bundle, base@, now_ms);
            }
        }
        self.next_frame_entities_uniforms.push(base[0]);
        self.next_frame_entities_uniforms.push(base[1]);
        proof {
            assert(self.next_frame_entities_uniforms@ =~= old(
                self,
            ).next_frame_entities_uniforms@ + base@);
        }
        self.renderer.draw(rec, &mut self.entities, bundle, &self.next_frame_entities_uniforms, now_ms);
        self.next_frame_entities_uniforms.clear();
        proof {
            let cam = self.camera;
            let gbundle = Mat3DUpdate {
                model: None,
                view: Some(
                    Mat4::spec_look_to(
                        cam.pos,
                        Camera::spec_front(cam.yaw as int, cam.pitch as int),
                        cam.up,
                    ),
                ),
                projection: None,
            };
            let gbase = seq![
                UniformKind::LightPos(LightPos { pos: old(self).sun.spec_actual_pos() }),
                UniformKind::EyePos(EyePos { pos: cam.pos }),
            ];
            assert(base@ =~= gbase);
            assert(bundle == gbundle);
            assert(rec.views() =~= old(rec).views() + seq![
                GlCmdV::ClearColor { color: old(self).renderer.spec_clear_color() },
                GlCmdV::Clear,
            ] + spec_entity_pass_cmds(old(self).sun, self.sun, gbundle, gbase, now_ms)
                + spec_collection_pass_cmds(
                old(self).entities@,
                self.entities@,
                gbundle,
                old(self).next_frame_entities_uniforms@ + gbase,
                now_ms,
            ));
        }
    }
}

} // verus!
