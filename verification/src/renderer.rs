//! The renderer: owns the viewport dimensions and clear color, and drives
//! every entity of a collection through update-then-draw each frame, in
//! collection order.

use crate::fixed::Vec3;
use crate::gl::{GlCmd, GlCmdV, GlRecorder};
use crate::helpers::Mat3DUpdate;
use crate::shader::{spec_draw_cmds_of, spec_shader_wf_opt, GlslPass};
use crate::uniform::UniformKind;
use vstd::prelude::*;

verus! {

/// How one entity steps across a frame: untouched before `init`, else
/// exactly one update.
pub open spec fn spec_entity_stepped<T: GlslPass>(
    pre: T,
    post: T,
    mat3d: Mat3DUpdate,
    uniforms: Seq<UniformKind>,
    now_ms: u64,
) -> bool {
    if pre.spec_shader() is None {
        post == pre
    } else {
        pre.spec_is_updated(&post, mat3d, uniforms, now_ms)
    }
}

/// The commands one entity's update-then-draw pass records: nothing
/// before `init`; otherwise its program activation, its update writes,
/// then its draw calls against its stepped state.
pub open spec fn spec_entity_pass_cmds<T: GlslPass>(
    pre: T,
    post: T,
    mat3d: Mat3DUpdate,
    uniforms: Seq<UniformKind>,
    now_ms: u64,
) -> Seq<GlCmdV> {
    match pre.spec_shader() {
        None => Seq::<GlCmdV>::empty(),
        Some(s) => seq![GlCmdV::UseProgram { program: s.program }] + pre.spec_update_cmds(
            mat3d,
            uniforms,
            now_ms,
        ) + spec_draw_cmds_of(post.spec_shader()),
    }
}

/// The commands of a whole collection's passes, in collection order.
pub open spec fn spec_collection_pass_cmds<T: GlslPass>(
    pres: Seq<T>,
    posts: Seq<T>,
    mat3d: Mat3DUpdate,
    uniforms: Seq<UniformKind>,
    now_ms: u64,
) -> Seq<GlCmdV>
    decreases pres.len(),
{
    if pres.len() == 0 || posts.len() == 0 {
        Seq::<GlCmdV>::empty()
    } else {
        spec_entity_pass_cmds(pres[0], posts[0], mat3d, uniforms, now_ms)
            + spec_collection_pass_cmds(
            pres.subrange(1, pres.len() as int),
            posts.subrange(1, posts.len() as int),
            mat3d,
            uniforms,
            now_ms,
        )
    }
}

/// Extending both sides by one pair appends that pair's pass.
proof fn lemma_collection_pass_cmds_push<T: GlslPass>(
    pres: Seq<T>,
    posts: Seq<T>,
    pre: T,
    post: T,
    mat3d: Mat3DUpdate,
    uniforms: Seq<UniformKind>,
    now_ms: u64,
)
    requires
        pres.len() == posts.len(),
    ensures
        spec_collection_pass_cmds(pres.push(pre), posts.push(post), mat3d, uniforms, now_ms)
            == spec_collection_pass_cmds(pres, posts, mat3d, uniforms, now_ms)
            + spec_entity_pass_cmds(pre, post, mat3d, uniforms, now_ms),
    decreases pres.len(),
{
    let a = pres.push(pre);
    let b = posts.push(post);
    if pres.len() == 0 {
        assert(a[0] == pre && b[0] == post);
        assert(a.subrange(1, a.len() as int) =~= Seq::<T>::empty());
        assert(b.subrange(1, b.len() as int) =~= Seq::<T>::empty());
        assert(spec_collection_pass_cmds(
            Seq::<T>::empty(),
            Seq::<T>::empty(),
            mat3d,
            uniforms,
            now_ms,
        ) == Seq::<GlCmdV>::empty());
        assert(spec_collection_pass_cmds(a, b, mat3d, uniforms, now_ms) == spec_entity_pass_cmds(
            pre,
            post,
            mat3d,
            uniforms,
            now_ms,
        ) + Seq::<GlCmdV>::empty());
        assert(spec_entity_pass_cmds(pre, post, mat3d, uniforms, now_ms) + Seq::<GlCmdV>::empty()
            =~= spec_entity_pass_cmds(pre, post, mat3d, uniforms, now_ms));
        assert(spec_collection_pass_cmds(pres, posts, mat3d, uniforms, now_ms)
            + spec_entity_pass_cmds(pre, post, mat3d, uniforms, now_ms)
            =~= spec_entity_pass_cmds(pre, post, mat3d, uniforms, now_ms));
    } else {
        assert(a[0] == pres[0] && b[0] == posts[0]);
        assert(a.subrange(1, a.len() as int) =~= pres.subrange(1, pres.len() as int).push(pre));
        assert(b.subrange(1, b.len() as int) =~= posts.subrange(1, posts.len() as int).push(post));
        lemma_collection_pass_cmds_push(
            pres.subrange(1, pres.len() as int),
            posts.subrange(1, posts.len() as int),
            pre,
            post,
            mat3d,
            uniforms,
            now_ms,
        );
        assert(spec_entity_pass_cmds(pres[0], posts[0], mat3d, uniforms, now_ms)
            + (spec_collection_pass_cmds(
            pres.subrange(1, pres.len() as int),
            posts.subrange(1, posts.len() as int),
            mat3d,
            uniforms,
            now_ms,
        ) + spec_entity_pass_cmds(pre, post, mat3d, uniforms, now_ms))
            =~= spec_collection_pass_cmds(pres, posts, mat3d, uniforms, now_ms)
            + spec_entity_pass_cmds(pre, post, mat3d, uniforms, now_ms));
    }
}

/// Owns the GPU-side frame state: viewport dimensions and clear color.
pub struct Renderer {
    window_width: u32,
    window_height: u32,
    clear_color: Vec3,
}

impl Renderer {
    pub closed spec fn spec_window_dimensions(self) -> (u32, u32) {
        (self.window_width, self.window_height)
    }

    pub closed spec fn spec_clear_color(self) -> Vec3 {
        self.clear_color
    }

    /// A renderer for a window: records the one-time depth-test enable.
    /// The embedding logs the driver's identification strings itself when
    /// it creates the context.
    pub fn new(rec: &mut GlRecorder, window_dimensions: (u32, u32), clear_color: Vec3) -> (r:
        Renderer)
        ensures
            final (rec).views() == old(rec).views().push(GlCmdV::EnableDepthTest),
            final (rec).next_id == old(rec).next_id,
            r.spec_window_dimensions() == window_dimensions,
            r.spec_clear_color() == clear_color,
    {
        rec.record(GlCmd::EnableDepthTest);
        Renderer {
            window_width: window_dimensions.0,
            window_height: window_dimensions.1,
            clear_color,
        }
    }

    /// Clears the color and depth buffers to the clear color. Once per
    /// frame, before any draw.
    pub fn clear(&self, rec: &mut GlRecorder)
        ensures
            final (rec).views() == old(rec).views() + seq![
                GlCmdV::ClearColor { color: self.spec_clear_color() },
                GlCmdV::Clear,
            ],
            final (rec).next_id == old(rec).next_id,
    {
        rec.record(GlCmd::ClearColor { color: self.clear_color });
        rec.record(GlCmd::Clear);
        proof {
            assert(rec.views() =~= old(rec).views() + seq![
                GlCmdV::ClearColor { color: self.spec_clear_color() },
                GlCmdV::Clear,
            ]);
        }
    }

    /// Drives every entity through its update-then-draw pass, in
    /// collection order: the paint order of the frame.
    pub fn draw<T: GlslPass>(
        &mut self,
        rec: &mut GlRecorder,
        objects: &mut Vec<T>,
        mat3d: Mat3DUpdate,
        to_set_uniforms: &Vec<UniformKind>,
        now_ms: u64,
    )
        requires
            forall|i: int|
                0 <= i < old(objects)@.len() ==> spec_shader_wf_opt(
                    (#[trigger] old(objects)@[i]).spec_shader(),
                ),
        ensures
            *final (self) == *old(self),
            final (objects)@.len() == old(objects)@.len(),
            forall|i: int|
                0 <= i < old(objects)@.len() ==> spec_entity_stepped(
                    old(objects)@[i],
                    #[trigger] final (objects)@[i],
                    mat3d,
                    to_set_uniforms@,
                    now_ms,
                ),
            forall|i: int|
                0 <= i < final (objects)@.len() ==> spec_shader_wf_opt(
                    (#[trigger] final (objects)@[i]).spec_shader(),
                ),
            final (rec).views() == old(rec).views() + spec_collection_pass_cmds(
                old(objects)@,
                final (objects)@,
                mat3d,
                to_set_uniforms@,
                now_ms,
            ),
            final (rec).next_id == old(rec).next_id,
    {
        let mut done: Vec<T> = Vec::new();
        let n = objects.len();
        let mut i: usize = 0;
        while i < n
            invariant
                n == old(objects)@.len(),
                0 <= i <= n,
                objects@ =~= old(objects)@.subrange(i as int, n as int),
                done@.len() == i,
                forall|k: int|
                    0 <= k < old(objects)@.len() ==> spec_shader_wf_opt(
                        (#[trigger] old(objects)@[k]).spec_shader(),
                    ),
                forall|k: int|
                    0 <= k < i ==> spec_entity_stepped(
                        old(objects)@[k],
                        #[trigger] done@[k],
                        mat3d,
                        to_set_uniforms@,
                        now_ms,
                    ),
                forall|k: int|
                    0 <= k < i ==> spec_shader_wf_opt((#[trigger] done@[k]).spec_shader()),
                rec.views() == old(rec).views() + spec_collection_pass_cmds(
                    old(objects)@.subrange(0, i as int),
                    done@,
                    mat3d,
                    to_set_uniforms@,
                    now_ms,
                ),
                rec.next_id == old(rec).next_id,
            decreases n - i,
        {
            let ghost pre = objects@[0];
            let mut e = objects.remove(0);
            proof {
                assert(pre == old(objects)@[i as int]);
            }
            e.update_draw(rec, mat3d, to_set_uniforms, now_ms);
            proof {
                if pre.spec_shader() is Some {
                    pre.lemma_update_keeps_wf(&e, mat3d, to_set_uniforms@, now_ms);
                }
                lemma_collection_pass_cmds_push(
                    old(objects)@.subrange(0, i as int),
                    done@,
                    pre,
                    e,
                    mat3d,
                    to_set_uniforms@,
                    now_ms,
                );
                assert(old(objects)@.subrange(0, i as int).push(pre) =~= old(objects)@.subrange(
                    0,
                    i as int + 1,
                ));
            }
            done.push(e);
            proof {
                assert(objects@ =~= old(objects)@.subrange(i as int + 1, n as int));
            }
            i = i + 1;
        }
        std::mem::swap(objects, &mut done);
        proof {
            assert(old(objects)@.subrange(0, n as int) =~= old(objects)@);
        }
    }

    /// Adopts a new surface size and points the viewport at it. A
    /// zero-sized resize is invalid; callers filter those out before they
    /// reach this method.
    pub fn resize(&mut self, rec: &mut GlRecorder, width: u32, height: u32)
        requires
            width >= 1,
            height >= 1,
        ensures
            final (self).spec_window_dimensions() == (width, height),
            final (self).spec_clear_color() == old(self).spec_clear_color(),
            final (rec).views() == old(rec).views().push(GlCmdV::Viewport { width, height }),
            final (rec).next_id == old(rec).next_id,
    {
        self.window_width = width;
        self.window_height = height;
        rec.record(GlCmd::Viewport { width, height });
    }

    /// The current viewport dimensions.
    pub fn get_window_dimensions(&self) -> (r: (u32, u32))
        ensures
            r == self.spec_window_dimensions(),
    {
        (self.window_width, self.window_height)
    }
}

} // verus!
