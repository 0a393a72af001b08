//! The GPU command stream.
//!
//! The library issues no GPU call itself: every operation records the
//! calls it would make, in order, as [`GlCmd`] values in a [`GlRecorder`].
//! The embedding drains the recorder each frame and performs the commands
//! against a real context. Object names — programs, buffers, vertex
//! arrays, textures — are identifiers the recorder hands out; the executor
//! maps each to the GPU object it creates for it.
//!
//! [`spec_apply_cmds`] models the one piece of GPU state the contracts
//! reason about: the per-program uniform store, written by
//! [`GlCmd::SetUniform`] with last-write-wins semantics.

use crate::fixed::Vec3;
use crate::mat4::Mat4;
use vstd::prelude::*;

verus! {

/// The texture target every texture in this scene binds to.
pub const TEXTURE_2D: u32 = 3553;

/// Which buffer binding point a buffer command addresses.
#[derive(Clone, Copy, PartialEq, Eq, Structural, Debug)]
pub enum BufferTarget {
    Array,
    ElementArray,
}

/// One value a shader uniform can hold. Scalars and vectors are
/// micro-units; the executor divides by `UNIT` on upload.
#[derive(Clone, Copy, PartialEq, Eq, Structural, Debug)]
pub enum UniformValue {
    F(i64),
    V3(Vec3),
    M4(Mat4),
}

/// One GPU call, recorded instead of issued.
#[derive(Clone, PartialEq, Debug)]
pub enum GlCmd {
    EnableDepthTest,
    /// Set the clear color, with full alpha.
    ClearColor { color: Vec3 },
    /// Clear the color and depth buffers.
    Clear,
    Viewport { width: u32, height: u32 },
    /// Compile both shader stages, link them, and keep the program under
    /// the given identifier. A stage that fails to compile is a fatal
    /// startup error: the executor reports the compiler's log and aborts.
    BuildProgram { program: u32, vertex_src: &'static str, fragment_src: &'static str },
    UseProgram { program: u32 },
    CreateVertexArray { vao: u32 },
    BindVertexArray { vao: u32 },
    CreateBuffer { buf: u32 },
    BindBuffer { target: BufferTarget, buf: u32 },
    /// Upload fixed-point vertex data to the bound buffer; the executor
    /// divides each entry by `UNIT`.
    BufferData { target: BufferTarget, data: Vec<i64> },
    /// Upload index data to the bound element buffer.
    BufferDataIndices { data: Vec<u32> },
    /// Overwrite the bound buffer's contents from its start.
    BufferSubData { target: BufferTarget, data: Vec<i64> },
    /// Look up the named attribute in the program, describe one vertex
    /// field (sizes in scalars, not bytes) and enable it. A name the
    /// program does not declare is a fatal startup error.
    VertexAttrib { program: u32, name: &'static str, size: u32, stride: u32, offset: u32 },
    CreateTexture { tex: u32 },
    BindTexture { target: u32, tex: u32 },
    /// Upload RGB pixel rows to the bound texture.
    TexImage2d { width: u32, height: u32, pixels: Vec<u8> },
    GenerateMipmap,
    /// Look up the named uniform in the program and write the value. A
    /// name the program does not declare makes this a harmless no-op.
    SetUniform { program: u32, name: &'static str, value: UniformValue },
    /// One indexed triangle draw over the bound buffers.
    DrawElements { index_count: usize },
    /// One triangle-strip draw at `first`, `count` vertices.
    DrawArraysStrip { first: usize, count: usize },
    DeleteProgram { program: u32 },
    DeleteBuffer { buf: u32 },
    DeleteVertexArray { vao: u32 },
    DeleteTexture { tex: u32 },
}

/// The ghost image of one command: the same call with every data payload
/// as the sequence it holds, so specifications can spell commands out.
pub ghost enum GlCmdV {
    EnableDepthTest,
    ClearColor { color: Vec3 },
    Clear,
    Viewport { width: u32, height: u32 },
    BuildProgram { program: u32, vertex_src: &'static str, fragment_src: &'static str },
    UseProgram { program: u32 },
    CreateVertexArray { vao: u32 },
    BindVertexArray { vao: u32 },
    CreateBuffer { buf: u32 },
    BindBuffer { target: BufferTarget, buf: u32 },
    BufferData { target: BufferTarget, data: Seq<i64> },
    BufferDataIndices { data: Seq<u32> },
    BufferSubData { target: BufferTarget, data: Seq<i64> },
    VertexAttrib { program: u32, name: &'static str, size: u32, stride: u32, offset: u32 },
    CreateTexture { tex: u32 },
    BindTexture { target: u32, tex: u32 },
    TexImage2d { width: u32, height: u32, pixels: Seq<u8> },
    GenerateMipmap,
    SetUniform { program: u32, name: &'static str, value: UniformValue },
    DrawElements { index_count: usize },
    DrawArraysStrip { first: usize, count: usize },
    DeleteProgram { program: u32 },
    DeleteBuffer { buf: u32 },
    DeleteVertexArray { vao: u32 },
    DeleteTexture { tex: u32 },
}

impl View for GlCmd {
    type V = GlCmdV;

    open spec fn view(&self) -> GlCmdV {
        match *self {
            GlCmd::EnableDepthTest => GlCmdV::EnableDepthTest,
            GlCmd::ClearColor { color } => GlCmdV::ClearColor { color },
            GlCmd::Clear => GlCmdV::Clear,
            GlCmd::Viewport { width, height } => GlCmdV::Viewport { width, height },
            GlCmd::BuildProgram { program, vertex_src, fragment_src } => GlCmdV::BuildProgram {
                program,
                vertex_src,
                fragment_src,
            },
            GlCmd::UseProgram { program } => GlCmdV::UseProgram { program },
            GlCmd::CreateVertexArray { vao } => GlCmdV::CreateVertexArray { vao },
            GlCmd::BindVertexArray { vao } => GlCmdV::BindVertexArray { vao },
            GlCmd::CreateBuffer { buf } => GlCmdV::CreateBuffer { buf },
            GlCmd::BindBuffer { target, buf } => GlCmdV::BindBuffer { target, buf },
            GlCmd::BufferData { target, data } => GlCmdV::BufferData { target, data: data@ },
            GlCmd::BufferDataIndices { data } => GlCmdV::BufferDataIndices { data: data@ },
            GlCmd::BufferSubData { target, data } => GlCmdV::BufferSubData {
                target,
                data: data@,
            },
            GlCmd::VertexAttrib { program, name, size, stride, offset } => GlCmdV::VertexAttrib {
                program,
                name,
                size,
                stride,
                offset,
            },
            GlCmd::CreateTexture { tex } => GlCmdV::CreateTexture { tex },
            GlCmd::BindTexture { target, tex } => GlCmdV::BindTexture { target, tex },
            GlCmd::TexImage2d { width, height, pixels } => GlCmdV::TexImage2d {
                width,
                height,
                pixels: pixels@,
            },
            GlCmd::GenerateMipmap => GlCmdV::GenerateMipmap,
            GlCmd::SetUniform { program, name, value } => GlCmdV::SetUniform {
                program,
                name,
                value,
            },
            GlCmd::DrawElements { index_count } => GlCmdV::DrawElements { index_count },
            GlCmd::DrawArraysStrip { first, count } => GlCmdV::DrawArraysStrip { first, count },
            GlCmd::DeleteProgram { program } => GlCmdV::DeleteProgram { program },
            GlCmd::DeleteBuffer { buf } => GlCmdV::DeleteBuffer { buf },
            GlCmd::DeleteVertexArray { vao } => GlCmdV::DeleteVertexArray { vao },
            GlCmd::DeleteTexture { tex } => GlCmdV::DeleteTexture { tex },
        }
    }
}

/// The ghost image of a command list.
pub open spec fn spec_cmd_views(cmds: Seq<GlCmd>) -> Seq<GlCmdV> {
    cmds.map_values(|c: GlCmd| c@)
}

/// The uniform store: what each program has recorded under each uniform
/// name.
pub type UniformStore = Map<(u32, Seq<char>), UniformValue>;

/// One command's effect on the uniform store: `SetUniform` writes its
/// value, every other command leaves the store alone.
pub open spec fn spec_apply_cmd(s: UniformStore, c: GlCmdV) -> UniformStore {
    match c {
        GlCmdV::SetUniform { program, name, value } => s.insert((program, name@), value),
        _ => s,
    }
}

/// A command sequence's effect on the uniform store, first to last.
pub open spec fn spec_apply_cmds(s: UniformStore, cmds: Seq<GlCmdV>) -> UniformStore
    decreases cmds.len(),
{
    if cmds.len() == 0 {
        s
    } else {
        spec_apply_cmds(spec_apply_cmd(s, cmds[0]), cmds.subrange(1, cmds.len() as int))
    }
}

/// Applying a concatenation applies the parts in order.
pub proof fn lemma_apply_cmds_concat(s: UniformStore, a: Seq<GlCmdV>, b: Seq<GlCmdV>)
    ensures
        spec_apply_cmds(s, a + b) == spec_apply_cmds(spec_apply_cmds(s, a), b),
    decreases a.len(),
{
    if a.len() == 0 {
        assert(a + b =~= b);
    } else {
        assert((a + b)[0] == a[0]);
        assert((a + b).subrange(1, (a + b).len() as int) =~= a.subrange(1, a.len() as int) + b);
        lemma_apply_cmds_concat(spec_apply_cmd(s, a[0]), a.subrange(1, a.len() as int), b);
    }
}

/// Records the GPU calls of one frame, or of one entity's setup, in issue
/// order, and hands out identifiers for the objects those calls create.
pub struct GlRecorder {
    /// The recorded calls, oldest first.
    pub cmds: Vec<GlCmd>,
    /// The next unused object identifier.
    pub next_id: u32,
}

impl GlRecorder {
    /// The recorded calls as the specifications spell them.
    pub open spec fn views(self) -> Seq<GlCmdV> {
        spec_cmd_views(self.cmds@)
    }

    pub fn new() -> (r: GlRecorder)
        ensures
            r.views() == Seq::<GlCmdV>::empty(),
            r.cmds@.len() == 0,
            r.next_id == 1,
    {
        let r = GlRecorder { cmds: Vec::new(), next_id: 1 };
        proof {
            assert(r.views() =~= Seq::<GlCmdV>::empty());
        }
        r
    }

    /// Appends one command.
    pub fn record(&mut self, c: GlCmd)
        ensures
            final (self).views() == old(self).views().push(c@),
            final (self).cmds@ == old(self).cmds@.push(c),
            final (self).next_id == old(self).next_id,
    {
        self.cmds.push(c);
        proof {
            assert(self.views() =~= old(self).views().push(c@));
        }
    }

    /// Hands out the next object identifier.
    pub fn fresh_id(&mut self) -> (id: u32)
        requires
            old(self).next_id < u32::MAX,
        ensures
            id == old(self).next_id,
            final (self).next_id == old(self).next_id + 1,
            final (self).cmds@ == old(self).cmds@,
            final (self).views() == old(self).views(),
    {
        let id = self.next_id;
        self.next_id = self.next_id + 1;
        id
    }

    /// Takes the recorded commands out, leaving the recorder empty but
    /// keeping its identifier counter.
    pub fn drain(&mut self) -> (r: Vec<GlCmd>)
        ensures
            r@ == old(self).cmds@,
            final (self).cmds@.len() == 0,
            final (self).views() == Seq::<GlCmdV>::empty(),
            final (self).next_id == old(self).next_id,
    {
        let mut out: Vec<GlCmd> = Vec::new();
        std::mem::swap(&mut out, &mut self.cmds);
        proof {
            assert(self.views() =~= Seq::<GlCmdV>::empty());
        }
        out
    }
}

} // verus!
