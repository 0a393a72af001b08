//! Textured cubes: six square faces per position, drawn as one batch.

use crate::fixed::{Vec3, COORD_LIMIT};
use crate::gl::{GlCmdV, GlRecorder};
use crate::helpers::{GlPosition, Mat3DUpdate};
use crate::shader::{GlslPass, Shader};
use crate::tex_square::{Square, TexSquare, TextureData, MAX_SQUARES, SIDE_LIMIT};
use crate::uniform::UniformKind;
use vstd::prelude::*;

verus! {

/// The most cube positions one entity may hold: six faces each.
pub const MAX_CUBES: usize = MAX_SQUARES / 6;

/// A cube center must sit far enough inside the world bounds that its
/// corners stay inside them too.
pub open spec fn spec_cube_pos_wf(pos: Vec3, side_len: int) -> bool {
    &&& pos.bounded(COORD_LIMIT as int / 4)
    &&& 0 < side_len <= SIDE_LIMIT
}

/// The six faces of the axis-aligned cube centered at `pos`: front, back,
/// right, left, top, bottom, each as the corner pair the winding rules of
/// [`Square::spec_vertex_data`] expect.
pub open spec fn spec_build_faces(pos: Vec3, side_len: int) -> Seq<Square> {
    let h = side_len / 2;
    seq![
        Square {
            bottom_left: Vec3 {
                x: (pos.x + h) as i64,
                y: (pos.y + h) as i64,
                z: (pos.z + h) as i64,
            },
            top_right: Vec3 {
                x: (pos.x - h) as i64,
                y: (pos.y - h) as i64,
                z: (pos.z + h) as i64,
            },
        },
        Square {
            bottom_left: Vec3 {
                x: (pos.x + h) as i64,
                y: (pos.y - h) as i64,
                z: (pos.z - h) as i64,
            },
            top_right: Vec3 {
                x: (pos.x - h) as i64,
                y: (pos.y + h) as i64,
                z: (pos.z - h) as i64,
            },
        },
        Square {
            bottom_left: Vec3 {
                x: (pos.x + h) as i64,
                y: (pos.y - h) as i64,
                z: (pos.z + h) as i64,
            },
            top_right: Vec3 {
                x: (pos.x + h) as i64,
                y: (pos.y + h) as i64,
                z: (pos.z - h) as i64,
            },
        },
        Square {
            bottom_left: Vec3 {
                x: (pos.x - h) as i64,
                y: (pos.y - h) as i64,
                z: (pos.z - h) as i64,
            },
            top_right: Vec3 {
                x: (pos.x - h) as i64,
                y: (pos.y + h) as i64,
                z: (pos.z + h) as i64,
            },
        },
        Square {
            bottom_left: Vec3 {
                x: (pos.x - h) as i64,
                y: (pos.y + h) as i64,
                z: (pos.z + h) as i64,
            },
            top_right: Vec3 {
                x: (pos.x + h) as i64,
                y: (pos.y + h) as i64,
                z: (pos.z - h) as i64,
            },
        },
        Square {
            bottom_left: Vec3 {
                x: (pos.x - h) as i64,
                y: (pos.y - h) as i64,
                z: (pos.z - h) as i64,
            },
            top_right: Vec3 {
                x: (pos.x + h) as i64,
                y: (pos.y - h) as i64,
                z: (pos.z + h) as i64,
            },
        },
    ]
}

/// Builds the six faces of one cube.
fn build_faces(pos: &GlPosition, side_len: i64) -> (r: Vec<Square>)
    requires
        spec_cube_pos_wf(*pos, side_len as int),
    ensures
        r@ == spec_build_faces(*pos, side_len as int),
        r@.len() == 6,
        forall|i: int| 0 <= i < r@.len() ==> (#[trigger] r@[i]).well_formed(),
{
    let half_side: i64 = side_len / 2;
    let mut faces: Vec<Square> = Vec::new();
    faces.push(Square {
        bottom_left: Vec3::new(pos.x + half_side, pos.y + half_side, pos.z + half_side),
        top_right: Vec3::new(pos.x - half_side, pos.y - half_side, pos.z + half_side),
    });
    faces.push(Square {
        bottom_left: Vec3::new(pos.x + half_side, pos.y - half_side, pos.z - half_side),
        top_right: Vec3::new(pos.x - half_side, pos.y + half_side, pos.z - half_side),
    });
    faces.push(Square {
        bottom_left: Vec3::new(pos.x + half_side, pos.y - half_side, pos.z + half_side),
        top_right: Vec3::new(pos.x + half_side, pos.y + half_side, pos.z - half_side),
    });
    faces.push(Square {
        bottom_left: Vec3::new(pos.x - half_side, pos.y - half_side, pos.z - half_side),
        top_right: Vec3::new(pos.x - half_side, pos.y + half_side, pos.z + half_side),
    });
    faces.push(Square {
        bottom_left: Vec3::new(pos.x - half_side, pos.y + half_side, pos.z + half_side),
        top_right: Vec3::new(pos.x + half_side, pos.y + half_side, pos.z - half_side),
    });
    faces.push(Square {
        bottom_left: Vec3::new(pos.x - half_side, pos.y - half_side, pos.z - half_side),
        top_right: Vec3::new(pos.x + half_side, pos.y - half_side, pos.z + half_side),
    });
    proof {
        assert(faces@ =~= spec_build_faces(*pos, side_len as int));
    }
    faces
}

/// The faces of a whole cube batch: six per position, in position order.
pub open spec fn spec_cubes_faces(positions: Seq<Vec3>, side_len: int) -> Seq<Square>
    decreases positions.len(),
{
    if positions.len() == 0 {
        Seq::<Square>::empty()
    } else {
        spec_build_faces(positions[0], side_len) + spec_cubes_faces(
            positions.subrange(1, positions.len() as int),
            side_len,
        )
    }
}

/// Extending the position list appends that cube's six faces.
proof fn lemma_cubes_faces_push(positions: Seq<Vec3>, pos: Vec3, side_len: int)
    ensures
        spec_cubes_faces(positions.push(pos), side_len) == spec_cubes_faces(positions, side_len)
            + spec_build_faces(pos, side_len),
    decreases positions.len(),
{
    let p = positions.push(pos);
    if positions.len() == 0 {
        assert(p[0] == pos);
        assert(p.subrange(1, p.len() as int) =~= Seq::<Vec3>::empty());
        assert(spec_cubes_faces(Seq::<Vec3>::empty(), side_len) == Seq::<Square>::empty());
        assert(spec_build_faces(pos, side_len) + Seq::<Square>::empty() =~= spec_build_faces(
            pos,
            side_len,
        ));
        assert(spec_cubes_faces(positions, side_len) + spec_build_faces(pos, side_len)
            =~= spec_build_faces(pos, side_len));
    } else {
        assert(p[0] == positions[0]);
        assert(p.subrange(1, p.len() as int) =~= positions.subrange(
            1,
            positions.len() as int,
        ).push(pos));
        lemma_cubes_faces_push(positions.subrange(1, positions.len() as int), pos, side_len);
        assert(spec_build_faces(positions[0], side_len) + (spec_cubes_faces(
            positions.subrange(1, positions.len() as int),
            side_len,
        ) + spec_build_faces(pos, side_len)) =~= spec_cubes_faces(positions, side_len)
            + spec_build_faces(pos, side_len));
    }
}

/// A batch of textured cubes: six faces per position, one square entity
/// underneath.
pub struct TexCube {
    squares: TexSquare,
}

impl TexCube {
    pub closed spec fn spec_squares(self) -> TexSquare {
        self.squares
    }

    /// Builds the faces of every cube, in position order, and wraps them
    /// in one square batch.
    pub fn new(positions: Vec<GlPosition>, side_len: i64, tex: Option<TextureData>) -> (r: TexCube)
        requires
            positions@.len() <= MAX_CUBES,
            forall|i: int|
                0 <= i < positions@.len() ==> spec_cube_pos_wf(
                    #[trigger] positions@[i],
                    side_len as int,
                ),
        ensures
            r.spec_shader() is None,
            r.spec_init_ready(),
            r.spec_squares().spec_instances() == spec_cubes_faces(positions@, side_len as int),
            r.spec_squares().spec_texture() == tex,
    {
        let mut faces: Vec<Square> = Vec::new();
        let n = positions.len();
        let mut i: usize = 0;
        while i < n
            invariant
                n == positions@.len(),
                0 <= i <= n,
                n <= MAX_CUBES,
                faces@.len() == 6 * i,
                faces@ == spec_cubes_faces(positions@.subrange(0, i as int), side_len as int),
                forall|k: int|
                    0 <= k < positions@.len() ==> spec_cube_pos_wf(
                        #[trigger] positions@[k],
                        side_len as int,
                    ),
                forall|k: int| 0 <= k < faces@.len() ==> (#[trigger] faces@[k]).well_formed(),
            decreases n - i,
        {
            proof {
                assert(positions@.subrange(0, i as int).push(positions@[i as int])
                    =~= positions@.subrange(0, i as int + 1));
                lemma_cubes_faces_push(
                    positions@.subrange(0, i as int),
                    positions@[i as int],
                    side_len as int,
                );
            }
            let mut cube_faces = build_faces(&positions[i], side_len);
            let mut j: usize = 0;
            while j < 6
                invariant
                    0 <= j <= 6,
                    cube_faces@.len() == 6,
                    cube_faces@ == spec_build_faces(positions@[i as int], side_len as int),
                    faces@.len() == 6 * i + j,
                    i < n <= MAX_CUBES,
                    n == positions@.len(),
                    faces@ == spec_cubes_faces(positions@.subrange(0, i as int), side_len as int)
                        + cube_faces@.subrange(0, j as int),
                    forall|k: int|
                        0 <= k < cube_faces@.len() ==> (#[trigger] cube_faces@[k]).well_formed(),
                    forall|k: int| 0 <= k < faces@.len() ==> (#[trigger] faces@[k]).well_formed(),
                decreases 6 - j,
            {
                let f = cube_faces[j];
                faces.push(f);
                proof {
                    assert(faces@ =~= spec_cubes_faces(
                        positions@.subrange(0, i as int),
                        side_len as int,
                    ) + cube_faces@.subrange(0, j as int + 1));
                }
                j = j + 1;
            }
            proof {
                assert(cube_faces@.subrange(0, 6) =~= cube_faces@);
                assert(faces@ =~= spec_cubes_faces(
                    positions@.subrange(0, i as int + 1),
                    side_len as int,
                ));
            }
            i = i + 1;
        }
        proof {
            assert(positions@.subrange(0, n as int) =~= positions@);
        }
        proof {
            assert(faces@.len() <= MAX_SQUARES) by (nonlinear_arith)
                requires
                    faces@.len() == 6 * n,
                    n <= MAX_CUBES,
                    MAX_CUBES == MAX_SQUARES / 6,
                    MAX_SQUARES == 0x10_0000;
        }
        TexCube { squares: TexSquare::new(faces, tex) }
    }
}

impl GlslPass for TexCube {
    closed spec fn spec_shader(&self) -> Option<Shader> {
        self.squares.spec_shader()
    }

    closed spec fn spec_init_ready(&self) -> bool {
        self.squares.spec_init_ready()
    }

    closed spec fn spec_is_updated(
        &self,
        post: &Self,
        mat3d: Mat3DUpdate,
        uniforms: Seq<UniformKind>,
        now_ms: u64,
    ) -> bool {
        self.squares.spec_is_updated(&post.squares, mat3d, uniforms, now_ms)
    }

    closed spec fn spec_update_cmds(
        &self,
        mat3d: Mat3DUpdate,
        uniforms: Seq<UniformKind>,
        now_ms: u64,
    ) -> Seq<GlCmdV> {
        self.squares.spec_update_cmds(mat3d, uniforms, now_ms)
    }

    proof fn lemma_uninit_update_records_nothing(
        &self,
        post: &Self,
        mat3d: Mat3DUpdate,
        uniforms: Seq<UniformKind>,
        now_ms: u64,
    ) {
        self.squares.lemma_uninit_update_records_nothing(&post.squares, mat3d, uniforms, now_ms);
    }

    proof fn lemma_update_keeps_wf(
        &self,
        post: &Self,
        mat3d: Mat3DUpdate,
        uniforms: Seq<UniformKind>,
        now_ms: u64,
    ) {
        self.squares.lemma_update_keeps_wf(&post.squares, mat3d, uniforms, now_ms);
    }

    fn init(
        &mut self,
        rec: &mut GlRecorder,
        mat3d: Mat3DUpdate,
        initial_uniforms: &Vec<UniformKind>,
    )
        ensures
            final (rec).views() == old(rec).views() + old(self).spec_squares().spec_init_cmds(
                mat3d,
                initial_uniforms@,
                old(rec).next_id,
            ),
            final (self).spec_squares().spec_instances() == old(
                self,
            ).spec_squares().spec_instances(),
            final (self).spec_squares().spec_texture() == old(
                self,
            ).spec_squares().spec_texture(),
    {
        self.squares.init(rec, mat3d, initial_uniforms);
    }

    fn update(
        &mut self,
        rec: &mut GlRecorder,
        mat3d: Mat3DUpdate,
        to_set_uniforms: &Vec<UniformKind>,
        now_ms: u64,
    ) {
        self.squares.update(rec, mat3d, to_set_uniforms, now_ms);
    }

    fn get_shader(&self) -> (r: Option<&Shader>) {
        self.squares.get_shader()
    }
}

} // verus!
