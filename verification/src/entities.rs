//! The scene's drawable entities, gathered under one closed sum type so a
//! renderer loop can drive a heterogeneous collection through the
//! render-pass contract.

use crate::gl::{GlCmdV, GlRecorder};
use crate::helpers::Mat3DUpdate;
use crate::hello_triangle::HelloTriangle;
use crate::shader::{GlslPass, Shader};
use crate::sun::Sun;
use crate::tex_cube::TexCube;
use crate::tex_square::TexSquare;
use crate::uniform::UniformKind;
use crate::utah_teapot::UtahTeapot;
use vstd::prelude::*;

verus! {

/// A drawable entity: everything it must do is the render-pass contract.
pub trait Entity: GlslPass {

}

impl Entity for HelloTriangle {

}

impl Entity for TexSquare {

}

impl Entity for TexCube {

}

impl Entity for UtahTeapot {

}

impl Entity for Sun {

}

/// The closed set of entity kinds a scene holds, each driven through the
/// same render-pass operations.
pub enum SceneEntity {
    Triangle(HelloTriangle),
    Square(TexSquare),
    Cube(TexCube),
    Teapot(UtahTeapot),
}

impl GlslPass for SceneEntity {
    open spec fn spec_shader(&self) -> Option<Shader> {
        match *self {
            SceneEntity::Triangle(ref e) => e.spec_shader(),
            SceneEntity::Square(ref e) => e.spec_shader(),
            SceneEntity::Cube(ref e) => e.spec_shader(),
            SceneEntity::Teapot(ref e) => e.spec_shader(),
        }
    }

    open spec fn spec_init_ready(&self) -> bool {
        match *self {
            SceneEntity::Triangle(ref e) => e.spec_init_ready(),
            SceneEntity::Square(ref e) => e.spec_init_ready(),
            SceneEntity::Cube(ref e) => e.spec_init_ready(),
            SceneEntity::Teapot(ref e) => e.spec_init_ready(),
        }
    }

    open spec fn spec_is_updated(
        &self,
        post: &Self,
        mat3d: Mat3DUpdate,
        uniforms: Seq<UniformKind>,
        now_ms: u64,
    ) -> bool {
        match (self, post) {
            (SceneEntity::Triangle(e), SceneEntity::Triangle(p)) => e.spec_is_updated(
                p,
                mat3d,
                uniforms,
                now_ms,
            ),
            (SceneEntity::Square(e), SceneEntity::Square(p)) => e.spec_is_updated(
                p,
                mat3d,
                uniforms,
                now_ms,
            ),
            (SceneEntity::Cube(e), SceneEntity::Cube(p)) => e.spec_is_updated(
                p,
                mat3d,
                uniforms,
                now_ms,
            ),
            (SceneEntity::Teapot(e), SceneEntity::Teapot(p)) => e.spec_is_updated(
                p,
                mat3d,
                uniforms,
                now_ms,
            ),
            _ => false,
        }
    }

    open spec fn spec_update_cmds(
        &self,
        mat3d: Mat3DUpdate,
        uniforms: Seq<UniformKind>,
        now_ms: u64,
    ) -> Seq<GlCmdV> {
        match *self {
            SceneEntity::Triangle(ref e) => e.spec_update_cmds(mat3d, uniforms, now_ms),
            SceneEntity::Square(ref e) => e.spec_update_cmds(mat3d, uniforms, now_ms),
            SceneEntity::Cube(ref e) => e.spec_update_cmds(mat3d, uniforms, now_ms),
            SceneEntity::Teapot(ref e) => e.spec_update_cmds(mat3d, uniforms, now_ms),
        }
    }

    proof fn lemma_uninit_update_records_nothing(
        &self,
        post: &Self,
        mat3d: Mat3DUpdate,
        uniforms: Seq<UniformKind>,
        now_ms: u64,
    ) {
        match (self, post) {
            (SceneEntity::Triangle(e), SceneEntity::Triangle(p)) => {
                e.lemma_uninit_update_records_nothing(p, mat3d, uniforms, now_ms);
            },
            (SceneEntity::Square(e), SceneEntity::Square(p)) => {
                e.lemma_uninit_update_records_nothing(p, mat3d, uniforms, now_ms);
            },
            (SceneEntity::Cube(e), SceneEntity::Cube(p)) => {
                e.lemma_uninit_update_records_nothing(p, mat3d, uniforms, now_ms);
            },
            (SceneEntity::Teapot(e), SceneEntity::Teapot(p)) => {
                e.lemma_uninit_update_records_nothing(p, mat3d, uniforms, now_ms);
            },
            _ => {},
        }
    }

    proof fn lemma_update_keeps_wf(
        &self,
        post: &Self,
        mat3d: Mat3DUpdate,
        uniforms: Seq<UniformKind>,
        now_ms: u64,
    ) {
        match (self, post) {
            (SceneEntity::Triangle(e), SceneEntity::Triangle(p)) => {
                e.lemma_update_keeps_wf(p, mat3d, uniforms, now_ms);
            },
            (SceneEntity::Square(e), SceneEntity::Square(p)) => {
                e.lemma_update_keeps_wf(p, mat3d, uniforms, now_ms);
            },
            (SceneEntity::Cube(e), SceneEntity::Cube(p)) => {
                e.lemma_update_keeps_wf(p, mat3d, uniforms, now_ms);
            },
            (SceneEntity::Teapot(e), SceneEntity::Teapot(p)) => {
                e.lemma_update_keeps_wf(p, mat3d, uniforms, now_ms);
            },
            _ => {},
        }
    }

    fn init(
        &mut self,
        rec: &mut GlRecorder,
        mat3d: Mat3DUpdate,
        initial_uniforms: &Vec<UniformKind>,
    ) {
        match self {
            SceneEntity::Triangle(e) => e.init(rec, mat3d, initial_uniforms),
            SceneEntity::Square(e) => e.init(rec, mat3d, initial_uniforms),
            SceneEntity::Cube(e) => e.init(rec, mat3d, initial_uniforms),
            SceneEntity::Teapot(e) => e.init(rec, mat3d, initial_uniforms),
        }
    }

    fn update(
        &mut self,
        rec: &mut GlRecorder,
        mat3d: Mat3DUpdate,
        to_set_uniforms: &Vec<UniformKind>,
        now_ms: u64,
    ) {
        match self {
            SceneEntity::Triangle(e) => e.update(rec, mat3d, to_set_uniforms, now_ms),
            SceneEntity::Square(e) => e.update(rec, mat3d, to_set_uniforms, now_ms),
            SceneEntity::Cube(e) => e.update(rec, mat3d, to_set_uniforms, now_ms),
            SceneEntity::Teapot(e) => e.update(rec, mat3d, to_set_uniforms, now_ms),
        }
    }

    fn get_shader(&self) -> (r: Option<&Shader>) {
        match self {
            SceneEntity::Triangle(e) => e.get_shader(),
            SceneEntity::Square(e) => e.get_shader(),
            SceneEntity::Cube(e) => e.get_shader(),
            SceneEntity::Teapot(e) => e.get_shader(),
        }
    }
}

impl Entity for SceneEntity {

}

} // verus!
