//! The render-pass contract and the GPU resource bundle behind it.
//!
//! Every drawable entity implements [`GlslPass`]: lazy one-time resource
//! creation (`init`), a per-frame `update` that only re-uploads what the
//! frame's transform bundle marks as changed, and `draw`, which issues the
//! entity's draw calls. `update_draw` is the one per-frame entry point; it
//! activates the entity's program before updating, so the uniform writes
//! land in the right program and are visible before the draw calls. Every
//! operation on an entity that was never initialized records no command at
//! all: a half-built scene degrades to a no-op, never to a crash.

use crate::gl::{BufferTarget, GlCmd, GlCmdV, GlRecorder};
use crate::helpers::Mat3DUpdate;
use crate::mat4::Mat4;
use crate::uniform::UniformKind;
use vstd::prelude::*;

verus! {

/// An indexed-triangles drawable: its GPU object names and how many
/// indices one draw call consumes.
#[derive(Clone, Copy, PartialEq, Eq, Structural, Debug)]
pub struct IndexedElements {
    pub vao: u32,
    pub vbo: u32,
    pub ebo: u32,
    pub index_count: usize,
}

/// A strip-array drawable: `len` strip draws of `count` vertices each,
/// their starts `offset` vertices apart.
#[derive(Clone, Copy, PartialEq, Eq, Structural, Debug)]
pub struct Array {
    pub vbo: u32,
    pub vao: u32,
    /// Total amount of strip draw calls.
    pub len: usize,
    /// Offset between the draw calls' first vertices.
    pub offset: usize,
    /// Count of vertices used per call.
    pub count: usize,
}

#[derive(Clone, Copy, PartialEq, Eq, Structural, Debug)]
pub enum Drawable {
    Indexed(IndexedElements),
    Array(Array),
}

/// A bound texture: its object name and target.
#[derive(Clone, Copy, PartialEq, Eq, Structural, Debug)]
pub struct Tex {
    pub tex: u32,
    pub target: u32,
}

/// The materialized GPU-side state of one entity: built exactly once by
/// `init`, kept until the entity releases it.
#[derive(Clone, PartialEq, Debug)]
pub struct Shader {
    pub program: u32,
    pub drawables: Vec<Drawable>,
    pub tex: Option<Tex>,
    pub model_transform: Mat4,
}

/// An array drawable must keep its draw-call starts inside `usize`.
pub open spec fn spec_drawable_wf(d: Drawable) -> bool {
    match d {
        Drawable::Array(a) => a.len * a.offset <= usize::MAX,
        Drawable::Indexed(_) => true,
    }
}

/// The strip draw calls of an array drawable, instance by instance.
pub open spec fn spec_strip_cmds(n: int, offset: int, count: int) -> Seq<GlCmdV>
    decreases n,
{
    if n <= 0 {
        Seq::empty()
    } else {
        spec_strip_cmds(n - 1, offset, count).push(
            GlCmdV::DrawArraysStrip { first: ((n - 1) * offset) as usize, count: count as usize },
        )
    }
}

/// The draw calls of one drawable: bind its objects, then draw.
pub open spec fn spec_drawable_cmds(d: Drawable) -> Seq<GlCmdV> {
    match d {
        Drawable::Indexed(ie) => seq![
            GlCmdV::BindVertexArray { vao: ie.vao },
            GlCmdV::BindBuffer { target: BufferTarget::Array, buf: ie.vbo },
            GlCmdV::BindBuffer { target: BufferTarget::ElementArray, buf: ie.ebo },
            GlCmdV::DrawElements { index_count: ie.index_count },
        ],
        Drawable::Array(a) => seq![
            GlCmdV::BindVertexArray { vao: a.vao },
            GlCmdV::BindBuffer { target: BufferTarget::Array, buf: a.vbo },
        ] + spec_strip_cmds(a.len as int, a.offset as int, a.count as int),
    }
}

/// The draw calls of a drawable list, in order.
pub open spec fn spec_drawables_cmds(ds: Seq<Drawable>) -> Seq<GlCmdV>
    decreases ds.len(),
{
    if ds.len() == 0 {
        Seq::empty()
    } else {
        spec_drawable_cmds(ds[0]) + spec_drawables_cmds(ds.subrange(1, ds.len() as int))
    }
}

/// Extending the drawable list appends that drawable's calls.
proof fn lemma_drawables_cmds_push(ds: Seq<Drawable>, d: Drawable)
    ensures
        spec_drawables_cmds(ds.push(d)) == spec_drawables_cmds(ds) + spec_drawable_cmds(d),
    decreases ds.len(),
{
    let p = ds.push(d);
    if ds.len() == 0 {
        assert(p[0] == d);
        assert(p.subrange(1, p.len() as int) =~= Seq::<Drawable>::empty());
        assert(spec_drawables_cmds(Seq::<Drawable>::empty()) == Seq::<GlCmdV>::empty());
        assert(spec_drawables_cmds(p) == spec_drawable_cmds(d) + Seq::<GlCmdV>::empty());
        assert(spec_drawable_cmds(d) + Seq::<GlCmdV>::empty() =~= spec_drawable_cmds(d));
        assert(spec_drawables_cmds(ds) + spec_drawable_cmds(d) =~= spec_drawable_cmds(d));
    } else {
        assert(p[0] == ds[0]);
        assert(p.subrange(1, p.len() as int) =~= ds.subrange(1, ds.len() as int).push(d));
        lemma_drawables_cmds_push(ds.subrange(1, ds.len() as int), d);
        assert(spec_drawable_cmds(ds[0]) + (spec_drawables_cmds(ds.subrange(1, ds.len() as int))
            + spec_drawable_cmds(d)) =~= spec_drawables_cmds(ds) + spec_drawable_cmds(d));
    }
}

/// Every draw call a bundle issues: bind its texture if it has one, then
/// draw each drawable.
pub open spec fn spec_shader_draw_cmds(s: Shader) -> Seq<GlCmdV> {
    (match s.tex {
        Some(t) => seq![GlCmdV::BindTexture { target: t.target, tex: t.tex }],
        None => Seq::<GlCmdV>::empty(),
    }) + spec_drawables_cmds(s.drawables@)
}

/// What drawing against a possibly absent bundle records: nothing before
/// `init`.
pub open spec fn spec_draw_cmds_of(o: Option<Shader>) -> Seq<GlCmdV> {
    match o {
        None => Seq::<GlCmdV>::empty(),
        Some(s) => spec_shader_draw_cmds(s),
    }
}

/// The release calls of one drawable.
pub open spec fn spec_drawable_delete_cmds(d: Drawable) -> Seq<GlCmdV> {
    match d {
        Drawable::Indexed(ie) => seq![
            GlCmdV::DeleteBuffer { buf: ie.ebo },
            GlCmdV::DeleteBuffer { buf: ie.vbo },
            GlCmdV::DeleteVertexArray { vao: ie.vao },
        ],
        Drawable::Array(a) => seq![
            GlCmdV::DeleteBuffer { buf: a.vbo },
            GlCmdV::DeleteVertexArray { vao: a.vao },
        ],
    }
}

/// The release calls of a drawable list, in order.
pub open spec fn spec_drawables_delete_cmds(ds: Seq<Drawable>) -> Seq<GlCmdV>
    decreases ds.len(),
{
    if ds.len() == 0 {
        Seq::empty()
    } else {
        spec_drawable_delete_cmds(ds[0]) + spec_drawables_delete_cmds(
            ds.subrange(1, ds.len() as int),
        )
    }
}

proof fn lemma_drawables_delete_cmds_push(ds: Seq<Drawable>, d: Drawable)
    ensures
        spec_drawables_delete_cmds(ds.push(d)) == spec_drawables_delete_cmds(ds)
            + spec_drawable_delete_cmds(d),
    decreases ds.len(),
{
    let p = ds.push(d);
    if ds.len() == 0 {
        assert(p[0] == d);
        assert(p.subrange(1, p.len() as int) =~= Seq::<Drawable>::empty());
        assert(spec_drawables_delete_cmds(Seq::<Drawable>::empty()) == Seq::<GlCmdV>::empty());
        assert(spec_drawables_delete_cmds(p) == spec_drawable_delete_cmds(d)
            + Seq::<GlCmdV>::empty());
        assert(spec_drawable_delete_cmds(d) + Seq::<GlCmdV>::empty() =~= spec_drawable_delete_cmds(
            d,
        ));
        assert(spec_drawables_delete_cmds(ds) + spec_drawable_delete_cmds(d)
            =~= spec_drawable_delete_cmds(d));
    } else {
        assert(p[0] == ds[0]);
        assert(p.subrange(1, p.len() as int) =~= ds.subrange(1, ds.len() as int).push(d));
        lemma_drawables_delete_cmds_push(ds.subrange(1, ds.len() as int), d);
        assert(spec_drawable_delete_cmds(ds[0]) + (spec_drawables_delete_cmds(
            ds.subrange(1, ds.len() as int),
        ) + spec_drawable_delete_cmds(d)) =~= spec_drawables_delete_cmds(ds)
            + spec_drawable_delete_cmds(d));
    }
}

/// Every release call a bundle issues: the program, each drawable's
/// objects, and the texture if it owns one.
pub open spec fn spec_shader_delete_cmds(s: Shader) -> Seq<GlCmdV> {
    seq![GlCmdV::DeleteProgram { program: s.program }] + spec_drawables_delete_cmds(s.drawables@)
        + (match s.tex {
        Some(t) => seq![GlCmdV::DeleteTexture { tex: t.tex }],
        None => Seq::<GlCmdV>::empty(),
    })
}

impl Shader {
    pub open spec fn well_formed(self) -> bool {
        forall|i: int|
            0 <= i < self.drawables@.len() ==> spec_drawable_wf(#[trigger] self.drawables@[i])
    }

    /// Activates this bundle's program.
    pub fn use_program(&self, rec: &mut GlRecorder)
        ensures
            final (rec).views() == old(rec).views().push(GlCmdV::UseProgram { program: self.program }),
            final (rec).next_id == old(rec).next_id,
    {
        rec.record(GlCmd::UseProgram { program: self.program });
    }

    /// Records every draw call this bundle issues.
    pub fn record_draw(&self, rec: &mut GlRecorder)
        requires
            self.well_formed(),
        ensures
            final (rec).views() == old(rec).views() + spec_shader_draw_cmds(*self),
            final (rec).next_id == old(rec).next_id,
    {
        let ghost base = rec.views();
        if let Some(t) = &self.tex {
            rec.record(GlCmd::BindTexture { target: t.target, tex: t.tex });
        }
        let ghost tex_part = rec.views();
        let n = self.drawables.len();
        let mut i: usize = 0;
        while i < n
            invariant
                n == self.drawables@.len(),
                0 <= i <= n,
                self.well_formed(),
                rec.views() == tex_part + spec_drawables_cmds(self.drawables@.subrange(0, i as int)),
                rec.next_id == old(rec).next_id,
            decreases n - i,
        {
            proof {
                assert(self.drawables@.subrange(0, i as int).push(self.drawables@[i as int])
                    =~= self.drawables@.subrange(0, i as int + 1));
                lemma_drawables_cmds_push(
                    self.drawables@.subrange(0, i as int),
                    self.drawables@[i as int],
                );
            }
            let d = self.drawables[i];
            match d {
                Drawable::Indexed(ie) => {
                    rec.record(GlCmd::BindVertexArray { vao: ie.vao });
                    rec.record(GlCmd::BindBuffer { target: BufferTarget::Array, buf: ie.vbo });
                    rec.record(GlCmd::BindBuffer {
                        target: BufferTarget::ElementArray,
                        buf: ie.ebo,
                    });
                    rec.record(GlCmd::DrawElements { index_count: ie.index_count });
                    proof {
                        assert(rec.views() =~= tex_part + spec_drawables_cmds(
                            self.drawables@.subrange(0, i as int + 1),
                        ));
                    }
                },
                Drawable::Array(a) => {
                    rec.record(GlCmd::BindVertexArray { vao: a.vao });
                    rec.record(GlCmd::BindBuffer { target: BufferTarget::Array, buf: a.vbo });
                    let ghost arr_base = rec.views();
                    let mut j: usize = 0;
                    while j < a.len
                        invariant
                            0 <= j <= a.len,
                            a.len * a.offset <= usize::MAX,
                            rec.views() == arr_base + spec_strip_cmds(
                                j as int,
                                a.offset as int,
                                a.count as int,
                            ),
                            rec.next_id == old(rec).next_id,
                        decreases a.len - j,
                    {
                        proof {
                            assert(j as int * a.offset as int <= a.len as int * a.offset as int)
                                by (nonlinear_arith)
                                requires
                                    0 <= (j as int) < (a.len as int),
                                    0 <= (a.offset as int);
                        }
                        rec.record(GlCmd::DrawArraysStrip { first: j * a.offset, count: a.count });
                        j = j + 1;
                    }
                    proof {
                        assert(rec.views() =~= tex_part + spec_drawables_cmds(
                            self.drawables@.subrange(0, i as int + 1),
                        ));
                    }
                },
            }
            i = i + 1;
        }
        proof {
            assert(self.drawables@.subrange(0, n as int) =~= self.drawables@);
            assert(rec.views() =~= old(rec).views() + spec_shader_draw_cmds(*self));
        }
    }

    /// Records the release of every GPU object this bundle owns. Must run
    /// while the context still lives; the bundle must not be drawn again.
    pub fn delete_gl(&self, rec: &mut GlRecorder)
        ensures
            final (rec).views() == old(rec).views() + spec_shader_delete_cmds(*self),
            final (rec).next_id == old(rec).next_id,
    {
        rec.record(GlCmd::DeleteProgram { program: self.program });
        let ghost prog_part = rec.views();
        let n = self.drawables.len();
        let mut i: usize = 0;
        while i < n
            invariant
                n == self.drawables@.len(),
                0 <= i <= n,
                rec.views() == prog_part + spec_drawables_delete_cmds(
                    self.drawables@.subrange(0, i as int),
                ),
                rec.next_id == old(rec).next_id,
            decreases n - i,
        {
            proof {
                assert(self.drawables@.subrange(0, i as int).push(self.drawables@[i as int])
                    =~= self.drawables@.subrange(0, i as int + 1));
                lemma_drawables_delete_cmds_push(
                    self.drawables@.subrange(0, i as int),
                    self.drawables@[i as int],
                );
            }
            match self.drawables[i] {
                Drawable::Indexed(ie) => {
                    rec.record(GlCmd::DeleteBuffer { buf: ie.ebo });
                    rec.record(GlCmd::DeleteBuffer { buf: ie.vbo });
                    rec.record(GlCmd::DeleteVertexArray { vao: ie.vao });
                },
                Drawable::Array(a) => {
                    rec.record(GlCmd::DeleteBuffer { buf: a.vbo });
                    rec.record(GlCmd::DeleteVertexArray { vao: a.vao });
                },
            }
            proof {
                assert(rec.views() =~= prog_part + spec_drawables_delete_cmds(
                    self.drawables@.subrange(0, i as int + 1),
                ));
            }
            i = i + 1;
        }
        if let Some(t) = &self.tex {
            rec.record(GlCmd::DeleteTexture { tex: t.tex });
        }
        proof {
            assert(self.drawables@.subrange(0, n as int) =~= self.drawables@);
            assert(rec.views() =~= old(rec).views() + spec_shader_delete_cmds(*self));
        }
    }
}

/// A bundle, where present, keeps its drawables well formed.
pub open spec fn spec_shader_wf_opt(o: Option<Shader>) -> bool {
    match o {
        Some(s) => s.well_formed(),
        None => true,
    }
}

/// The polymorphic per-frame contract every drawable entity implements:
/// one-time resource creation, per-frame update, and draw-call issuance,
/// driven uniformly by the renderer.
pub trait GlslPass: Sized {
    /// The GPU resource bundle, present once `init` has run.
    spec fn spec_shader(&self) -> Option<Shader>;

    /// Whatever the entity needs before `init` may run — geometry sizes
    /// within bounds and the like; `true` where nothing is needed.
    spec fn spec_init_ready(&self) -> bool;

    /// How the entity's state after one `update` relates to its state
    /// before: the relation pins the new state down completely.
    spec fn spec_is_updated(
        &self,
        post: &Self,
        mat3d: Mat3DUpdate,
        uniforms: Seq<UniformKind>,
        now_ms: u64,
    ) -> bool;

    /// The commands one `update` records.
    spec fn spec_update_cmds(
        &self,
        mat3d: Mat3DUpdate,
        uniforms: Seq<UniformKind>,
        now_ms: u64,
    ) -> Seq<GlCmdV>;

    /// Before `init`, an update records nothing and builds no bundle.
    proof fn lemma_uninit_update_records_nothing(
        &self,
        post: &Self,
        mat3d: Mat3DUpdate,
        uniforms: Seq<UniformKind>,
        now_ms: u64,
    )
        requires
            self.spec_shader() is None,
            self.spec_is_updated(post, mat3d, uniforms, now_ms),
        ensures
            self.spec_update_cmds(mat3d, uniforms, now_ms) == Seq::<GlCmdV>::empty(),
            post.spec_shader() is None,
    ;

    /// An update keeps the bundle's drawables well formed.
    proof fn lemma_update_keeps_wf(
        &self,
        post: &Self,
        mat3d: Mat3DUpdate,
        uniforms: Seq<UniformKind>,
        now_ms: u64,
    )
        requires
            spec_shader_wf_opt(self.spec_shader()),
            self.spec_is_updated(post, mat3d, uniforms, now_ms),
        ensures
            spec_shader_wf_opt(post.spec_shader()),
    ;

    /// Builds the GPU resources, exactly once per entity: program,
    /// buffers, optional texture; resolves the transform bundle to
    /// identity-filled values and uploads them; applies the initial
    /// uniforms once.
    fn init(
        &mut self,
        rec: &mut GlRecorder,
        mat3d: Mat3DUpdate,
        initial_uniforms: &Vec<UniformKind>,
    )
        requires
            old(self).spec_shader() is None,
            old(self).spec_init_ready(),
            old(rec).next_id <= 0xE000_0000u32,
        ensures
            final (self).spec_shader() is Some,
            spec_shader_wf_opt(final (self).spec_shader()),
            old(rec).views().is_prefix_of(final (rec).views()),
            final (rec).next_id >= old(rec).next_id,
            final (rec).next_id <= old(rec).next_id + 0x10_000,
    ;

    /// Per-frame update: re-uploads exactly the transform fields present
    /// in the bundle, applies the frame's uniforms, and advances any
    /// time-driven animation. The entity's program must be the active
    /// one; the caller sees to that. Records nothing before `init`.
    fn update(
        &mut self,
        rec: &mut GlRecorder,
        mat3d: Mat3DUpdate,
        to_set_uniforms: &Vec<UniformKind>,
        now_ms: u64,
    )
        ensures
            old(self).spec_is_updated(final (self), mat3d, to_set_uniforms@, now_ms),
            final (rec).views() == old(rec).views() + old(self).spec_update_cmds(
                mat3d,
                to_set_uniforms@,
                now_ms,
            ),
            final (rec).next_id == old(rec).next_id,
    ;

    /// The bundle, for the renderer to look at.
    fn get_shader(&self) -> (r: Option<&Shader>)
        ensures
            r is Some <==> self.spec_shader() is Some,
            r matches Some(s) ==> self.spec_shader() == Some(*s),
    ;

    /// Issues the entity's draw calls. The program must be active;
    /// records nothing before `init`.
    fn draw(&self, rec: &mut GlRecorder)
        requires
            spec_shader_wf_opt(self.spec_shader()),
        ensures
            final (rec).views() == old(rec).views() + spec_draw_cmds_of(self.spec_shader()),
            final (rec).next_id == old(rec).next_id,
    {
        match self.get_shader() {
            None => {
                proof {
                    assert(rec.views() =~= old(rec).views() + spec_draw_cmds_of(
                        self.spec_shader(),
                    ));
                }
            },
            Some(shader) => {
                shader.record_draw(rec);
            },
        }
    }

    /// The per-frame entry point: activates this entity's program, then
    /// updates, then draws, in that fixed order, so the update's uniform
    /// and transform writes are visible to the draw calls. A no-op before
    /// `init`.
    fn update_draw(
        &mut self,
        rec: &mut GlRecorder,
        mat3d: Mat3DUpdate,
        to_set_uniforms: &Vec<UniformKind>,
        now_ms: u64,
    )
        requires
            spec_shader_wf_opt(old(self).spec_shader()),
        ensures
            old(self).spec_shader() is None ==> *final (self) == *old(self) && final (rec).views()
                == old(rec).views(),
            old(self).spec_shader() matches Some(s) ==> final (rec).views() == old(rec).views()
                + seq![GlCmdV::UseProgram { program: s.program }] + old(self).spec_update_cmds(
                mat3d,
                to_set_uniforms@,
                now_ms,
            ) + spec_draw_cmds_of(final (self).spec_shader()),
            old(self).spec_shader() is Some ==> old(self).spec_is_updated(
                final (self),
                mat3d,
                to_set_uniforms@,
                now_ms,
            ),
            final (rec).next_id == old(rec).next_id,
    {
        let program = match self.get_shader() {
            None => {
                return ;
            },
            Some(shader) => shader.program,
        };
        rec.record(GlCmd::UseProgram { program });
        self.update(rec, mat3d, to_set_uniforms, now_ms);
        proof {
            old(self).lemma_update_keeps_wf(self, mat3d, to_set_uniforms@, now_ms);
        }
        self.draw(rec);
        proof {
            assert(rec.views() =~= old(rec).views() + seq![GlCmdV::UseProgram { program }] + old(
                self,
            ).spec_update_cmds(mat3d, to_set_uniforms@, now_ms) + spec_draw_cmds_of(
                self.spec_shader(),
            ));
        }
    }
}

/// Hands out a program identifier and records the command that compiles
/// both shader stages and links them under it.
pub fn build_program(
    rec: &mut GlRecorder,
    vertex_src: &'static str,
    fragment_src: &'static str,
) -> (p: u32)
    requires
        old(rec).next_id < u32::MAX,
    ensures
        p == old(rec).next_id,
        final (rec).next_id == old(rec).next_id + 1,
        final (rec).views() == old(rec).views().push(
            GlCmdV::BuildProgram { program: p, vertex_src, fragment_src },
        ),
{
    let p = rec.fresh_id();
    rec.record(GlCmd::BuildProgram { program: p, vertex_src, fragment_src });
    p
}

} // verus!
