//! The orbiting sun: a textured billboard square that circles the scene
//! center once per orbit period and is the light source the other
//! entities shade against.

use crate::fixed::{sat_add, spec_sat_add, Vec3, COORD_LIMIT, UNIT};
use crate::gl::{GlCmdV, GlRecorder};
use crate::helpers::{GlPosition, Mat3DUpdate};
use crate::mat4::Mat4;
use crate::shader::{GlslPass, Shader};
use crate::tex_square::{Square, TexSquare, TextureData};
use crate::trig::{cos_udeg, sin_udeg, spec_cos_udeg, spec_sin_udeg};
use crate::uniform::UniformKind;
use vstd::prelude::*;

verus! {

/// Half the billboard's side, in micro-units (three units).
pub const SUN_SIDE_LEN: i64 = 3_000_000;

/// The orbit's radius in whole units.
pub const ORBIT_RADIUS_UNITS: i64 = 10;

/// One full orbit takes this long.
pub const ORBIT_PERIOD_MS: u64 = 10_000;

/// Micro-degrees of orbit per leftover millisecond of the period.
pub const ORBIT_UDEG_PER_MS: i64 = 36_000;

/// The orbit angle at a scene time: one backward turn per period, exact
/// at the period boundaries.
pub open spec fn spec_orbit_angle(now_ms: int) -> int {
    let leftover = now_ms % (ORBIT_PERIOD_MS as int);
    if leftover == 0 {
        0
    } else {
        (ORBIT_PERIOD_MS - leftover) * ORBIT_UDEG_PER_MS
    }
}

/// The orbit's x offset at a scene time, in micro-units.
pub open spec fn spec_orbit_dx(now_ms: int) -> int {
    spec_cos_udeg(spec_orbit_angle(now_ms)) * ORBIT_RADIUS_UNITS
}

/// The orbit's z offset at a scene time, in micro-units.
pub open spec fn spec_orbit_dz(now_ms: int) -> int {
    spec_sin_udeg(spec_orbit_angle(now_ms)) * ORBIT_RADIUS_UNITS
}

/// The orbiting light source.
pub struct Sun {
    square: TexSquare,
    initial_pos: GlPosition,
    actual_pos: GlPosition,
}

impl Sun {
    pub closed spec fn spec_square(self) -> TexSquare {
        self.square
    }

    pub closed spec fn spec_initial_pos(self) -> GlPosition {
        self.initial_pos
    }

    pub closed spec fn spec_actual_pos(self) -> GlPosition {
        self.actual_pos
    }

    /// Where the sun stands after an update at the given scene time: the
    /// orbit offset from its initial position, at its original height.
    pub open spec fn spec_pos_after(self, now_ms: int) -> GlPosition {
        Vec3 {
            x: spec_sat_add(self.spec_initial_pos().x as int, spec_orbit_dx(now_ms)) as i64,
            y: self.spec_actual_pos().y,
            z: spec_sat_add(self.spec_initial_pos().z as int, spec_orbit_dz(now_ms)) as i64,
        }
    }

    /// A sun billboard centered at `position`, flat in y.
    pub fn new(position: GlPosition, texture: Option<TextureData>) -> (r: Sun)
        requires
            position.bounded(COORD_LIMIT as int / 4),
        ensures
            r.spec_shader() is None,
            r.spec_init_ready(),
            r.spec_initial_pos() == position,
            r.spec_actual_pos() == position,
            r.spec_square().spec_instances() == seq![
                Square {
                    bottom_left: Vec3 {
                        x: (position.x - SUN_SIDE_LEN) as i64,
                        y: position.y,
                        z: (position.z - SUN_SIDE_LEN) as i64,
                    },
                    top_right: Vec3 {
                        x: (position.x + SUN_SIDE_LEN) as i64,
                        y: position.y,
                        z: (position.z + SUN_SIDE_LEN) as i64,
                    },
                },
            ],
            r.spec_square().spec_texture() == texture,
    {
        let face = Square {
            bottom_left: Vec3::new(position.x - SUN_SIDE_LEN, position.y, position.z - SUN_SIDE_LEN),
            top_right: Vec3::new(position.x + SUN_SIDE_LEN, position.y, position.z + SUN_SIDE_LEN),
        };
        let mut faces: Vec<Square> = Vec::new();
        faces.push(face);
        proof {
            assert(faces@ =~= seq![face]);
        }
        Sun {
            square: TexSquare::new(faces, texture),
            initial_pos: position,
            actual_pos: position,
        }
    }

    /// The sun's current world position, as of its last update.
    pub fn get_pos(&self) -> (r: GlPosition)
        ensures
            r == self.spec_actual_pos(),
    {
        self.actual_pos
    }
}

impl GlslPass for Sun {
    closed spec fn spec_shader(&self) -> Option<Shader> {
        self.square.spec_shader()
    }

    closed spec fn spec_init_ready(&self) -> bool {
        self.square.spec_init_ready()
    }

    closed spec fn spec_is_updated(
        &self,
        post: &Self,
        mat3d: Mat3DUpdate,
        uniforms: Seq<UniformKind>,
        now_ms: u64,
    ) -> bool {
        let model = Mat4::spec_from_translation(
            Vec3 {
                x: spec_orbit_dx(now_ms as int) as i64,
                y: 0,
                z: spec_orbit_dz(now_ms as int) as i64,
            },
        );
        &&& post.initial_pos == self.initial_pos
        &&& post.actual_pos == self.spec_pos_after(now_ms as int)
        &&& self.square.spec_is_updated(
            &post.square,
            Mat3DUpdate { model: Some(model), ..mat3d },
            uniforms,
            now_ms,
        )
    }

    closed spec fn spec_update_cmds(
        &self,
        mat3d: Mat3DUpdate,
        uniforms: Seq<UniformKind>,
        now_ms: u64,
    ) -> Seq<GlCmdV> {
        let model = Mat4::spec_from_translation(
            Vec3 {
                x: spec_orbit_dx(now_ms as int) as i64,
                y: 0,
                z: spec_orbit_dz(now_ms as int) as i64,
            },
        );
        self.square.spec_update_cmds(Mat3DUpdate { model: Some(model), ..mat3d }, uniforms, now_ms)
    }

    proof fn lemma_uninit_update_records_nothing(
        &self,
        post: &Self,
        mat3d: Mat3DUpdate,
        uniforms: Seq<UniformKind>,
        now_ms: u64,
    ) {
        let model = Mat4::spec_from_translation(
            Vec3 {
                x: spec_orbit_dx(now_ms as int) as i64,
                y: 0,
                z: spec_orbit_dz(now_ms as int) as i64,
            },
        );
        self.square.lemma_uninit_update_records_nothing(
            &post.square,
            Mat3DUpdate { model: Some(model), ..mat3d },
            uniforms,
            now_ms,
        );
    }

    proof fn lemma_update_keeps_wf(
        &self,
        post: &Self,
        mat3d: Mat3DUpdate,
        uniforms: Seq<UniformKind>,
        now_ms: u64,
    ) {
        let model = Mat4::spec_from_translation(
            Vec3 {
                x: spec_orbit_dx(now_ms as int) as i64,
                y: 0,
                z: spec_orbit_dz(now_ms as int) as i64,
            },
        );
        self.square.lemma_update_keeps_wf(
            &post.square,
            Mat3DUpdate { model: Some(model), ..mat3d },
            uniforms,
            now_ms,
        );
    }

    fn init(
        &mut self,
        rec: &mut GlRecorder,
        mat3d: Mat3DUpdate,
        initial_uniforms: &Vec<UniformKind>,
    )
        ensures
            final (rec).views() == old(rec).views() + old(self).spec_square().spec_init_cmds(
                mat3d,
                initial_uniforms@,
                old(rec).next_id,
            ),
            final (self).spec_initial_pos() == old(self).spec_initial_pos(),
            final (self).spec_actual_pos() == old(self).spec_actual_pos(),
            final (self).spec_square().spec_instances() == old(
                self,
            ).spec_square().spec_instances(),
            final (self).spec_square().spec_texture() == old(self).spec_square().spec_texture(),
    {
        self.square.init(rec, mat3d, initial_uniforms);
    }

    fn update(
        &mut self,
        rec: &mut GlRecorder,
        mat3d: Mat3DUpdate,
        to_set_uniforms: &Vec<UniformKind>,
        now_ms: u64,
    ) {
        let leftover = now_ms % ORBIT_PERIOD_MS;
        let angle: i64 = if leftover == 0 {
            0
        } else {
            ((ORBIT_PERIOD_MS - leftover) as i64) * ORBIT_UDEG_PER_MS
        };
        let dx: i64 = cos_udeg(angle) * ORBIT_RADIUS_UNITS;
        let dz: i64 = sin_udeg(angle) * ORBIT_RADIUS_UNITS;
        let model = Mat4::from_translation(Vec3 { x: dx, y: 0, z: dz });
        self.actual_pos = Vec3 {
            x: sat_add(self.initial_pos.x, dx),
            y: self.actual_pos.y,
            z: sat_add(self.initial_pos.z, dz),
        };
        let bundle = Mat3DUpdate { model: Some(model), ..mat3d };
        self.square.update(rec, bundle, to_set_uniforms, now_ms);
    }

    fn get_shader(&self) -> (r: Option<&Shader>) {
        self.square.get_shader()
    }
}

} // verus!
