//! Fixed-point 4x4 matrices, column-major.
//!
//! Each column is a [`Vec4`] of micro-units; the identity's diagonal holds
//! `UNIT`. These are the model, view and projection transforms the scene
//! uploads; consumers divide every entry by `UNIT` when they hand a matrix
//! to the GPU.

use crate::fixed::{
    lemma_cross_bounded, mul_div, mul_div_trunc, trunc_div, Vec3, Vec4, COORD_LIMIT, UNIT,
};
use vstd::prelude::*;

verus! {

/// A column-major 4x4 fixed-point matrix.
#[derive(Clone, Copy, PartialEq, Eq, Structural, Debug)]
pub struct Mat4 {
    pub x_axis: Vec4,
    pub y_axis: Vec4,
    pub z_axis: Vec4,
    pub w_axis: Vec4,
}

impl Mat4 {
    pub open spec fn spec_identity() -> Mat4 {
        Mat4 {
            x_axis: Vec4 { x: UNIT as i64, y: 0, z: 0, w: 0 },
            y_axis: Vec4 { x: 0, y: UNIT as i64, z: 0, w: 0 },
            z_axis: Vec4 { x: 0, y: 0, z: UNIT as i64, w: 0 },
            w_axis: Vec4 { x: 0, y: 0, z: 0, w: UNIT as i64 },
        }
    }

    /// The identity transform.
    pub fn identity() -> (r: Mat4)
        ensures
            r == Mat4::spec_identity(),
    {
        Mat4 {
            x_axis: Vec4 { x: UNIT, y: 0, z: 0, w: 0 },
            y_axis: Vec4 { x: 0, y: UNIT, z: 0, w: 0 },
            z_axis: Vec4 { x: 0, y: 0, z: UNIT, w: 0 },
            w_axis: Vec4 { x: 0, y: 0, z: 0, w: UNIT },
        }
    }

    pub open spec fn spec_from_translation(v: Vec3) -> Mat4 {
        Mat4 {
            w_axis: Vec4 { x: v.x, y: v.y, z: v.z, w: UNIT as i64 },
            ..Mat4::spec_identity()
        }
    }

    /// A pure translation by `v`.
    pub fn from_translation(v: Vec3) -> (r: Mat4)
        ensures
            r == Mat4::spec_from_translation(v),
    {
        Mat4 { w_axis: Vec4 { x: v.x, y: v.y, z: v.z, w: UNIT }, ..Mat4::identity() }
    }

    pub open spec fn spec_from_rotation_y(angle_udeg: int) -> Mat4 {
        let c = crate::trig::spec_cos_udeg(angle_udeg) as i64;
        let s = crate::trig::spec_sin_udeg(angle_udeg) as i64;
        Mat4 {
            x_axis: Vec4 { x: c, y: 0, z: (-s) as i64, w: 0 },
            y_axis: Vec4 { x: 0, y: UNIT as i64, z: 0, w: 0 },
            z_axis: Vec4 { x: s, y: 0, z: c, w: 0 },
            w_axis: Vec4 { x: 0, y: 0, z: 0, w: UNIT as i64 },
        }
    }

    /// A rotation about the y axis by an angle in micro-degrees.
    pub fn from_rotation_y(angle_udeg: i64) -> (r: Mat4)
        requires
            -crate::trig::MAX_ANGLE_UDEG <= angle_udeg <= crate::trig::MAX_ANGLE_UDEG,
        ensures
            r == Mat4::spec_from_rotation_y(angle_udeg as int),
    {
        let c = crate::trig::cos_udeg(angle_udeg);
        let s = crate::trig::sin_udeg(angle_udeg);
        Mat4 {
            x_axis: Vec4 { x: c, y: 0, z: -s, w: 0 },
            y_axis: Vec4 { x: 0, y: UNIT, z: 0, w: 0 },
            z_axis: Vec4 { x: s, y: 0, z: c, w: 0 },
            w_axis: Vec4 { x: 0, y: 0, z: 0, w: UNIT },
        }
    }

    /// A uniform scale by `s` micro-units per unit.
    pub fn from_scale_uniform(s: i64) -> (r: Mat4)
        ensures
            r == (Mat4 {
                x_axis: Vec4 { x: s, y: 0, z: 0, w: 0 },
                y_axis: Vec4 { x: 0, y: s, z: 0, w: 0 },
                z_axis: Vec4 { x: 0, y: 0, z: s, w: 0 },
                w_axis: Vec4 { x: 0, y: 0, z: 0, w: UNIT as i64 },
            }),
    {
        Mat4 {
            x_axis: Vec4 { x: s, y: 0, z: 0, w: 0 },
            y_axis: Vec4 { x: 0, y: s, z: 0, w: 0 },
            z_axis: Vec4 { x: 0, y: 0, z: s, w: 0 },
            w_axis: Vec4 { x: 0, y: 0, z: 0, w: UNIT },
        }
    }

    pub open spec fn spec_look_to(eye: Vec3, dir: Vec3, up: Vec3) -> Mat4 {
        let f = dir.spec_normalize();
        let s = f.spec_cross(up).spec_normalize();
        let u = s.spec_cross(f);
        Mat4 {
            x_axis: Vec4 { x: s.x, y: u.x, z: (-f.x) as i64, w: 0 },
            y_axis: Vec4 { x: s.y, y: u.y, z: (-f.y) as i64, w: 0 },
            z_axis: Vec4 { x: s.z, y: u.z, z: (-f.z) as i64, w: 0 },
            w_axis: Vec4 {
                x: (-eye.spec_dot(s)) as i64,
                y: (-eye.spec_dot(u)) as i64,
                z: eye.spec_dot(f) as i64,
                w: UNIT as i64,
            },
        }
    }

    /// The right-handed view transform for an eye looking along `dir` with
    /// the given up vector.
    pub fn look_to(eye: Vec3, dir: Vec3, up: Vec3) -> (r: Mat4)
        requires
            eye.bounded(COORD_LIMIT as int),
            dir.bounded(COORD_LIMIT as int),
            up.bounded(UNIT as int),
        ensures
            r == Mat4::spec_look_to(eye, dir, up),
    {
        let f = dir.normalize();
        proof {
            lemma_cross_bounded(f, up, UNIT as int);
        }
        let s = f.cross(up).normalize();
        proof {
            lemma_cross_bounded(s, f, UNIT as int);
        }
        let u = s.cross(f);
        Mat4 {
            x_axis: Vec4 { x: s.x, y: u.x, z: -f.x, w: 0 },
            y_axis: Vec4 { x: s.y, y: u.y, z: -f.y, w: 0 },
            z_axis: Vec4 { x: s.z, y: u.z, z: -f.z, w: 0 },
            w_axis: Vec4 { x: -eye.dot(s), y: -eye.dot(u), z: eye.dot(f), w: UNIT },
        }
    }

    pub open spec fn spec_perspective(width: int, height: int, near: int, far: int) -> Mat4 {
        let aspect = trunc_div(width * UNIT, height);
        let a = trunc_div(UNIT as int * UNIT, aspect);
        let b = -trunc_div((near + far) * UNIT, far - near);
        let c = -trunc_div(2 * mul_div_trunc(near, far, UNIT as int) * UNIT, far - near);
        Mat4 {
            x_axis: Vec4 { x: a as i64, y: 0, z: 0, w: 0 },
            y_axis: Vec4 { x: 0, y: UNIT as i64, z: 0, w: 0 },
            z_axis: Vec4 { x: 0, y: 0, z: b as i64, w: (-UNIT) as i64 },
            w_axis: Vec4 { x: 0, y: 0, z: c as i64, w: 0 },
        }
    }

    /// The OpenGL-style right-handed perspective projection for a quarter-turn
    /// vertical field of view (whose focal length is exactly one unit), an
    /// aspect ratio taken from the window dimensions, and the given near and
    /// far planes in micro-units.
    pub fn perspective(width: u32, height: u32, near: i64, far: i64) -> (r: Mat4)
        requires
            1 <= height <= width as int * UNIT,
            width >= 1,
            0 < near <= UNIT < far <= 1000 * UNIT,
        ensures
            r == Mat4::spec_perspective(width as int, height as int, near as int, far as int),
    {
        let aspect: i64 = div_wide(width, height);
        proof {
            vstd::arithmetic::div_mod::lemma_div_pos_is_pos(
                width as int * UNIT - height as int,
                height as int,
            );
            vstd::arithmetic::div_mod::lemma_div_is_ordered(
                height as int,
                width as int * UNIT,
                height as int,
            );
            vstd::arithmetic::div_mod::lemma_div_basics_3(height as int);
        }
        let a: i64 = mul_div(UNIT, UNIT, aspect);
        let b: i64 = -mul_div(near + far, UNIT, far - near);
        proof {
            assert(0 <= near as int * far as int <= i64::MAX) by (nonlinear_arith)
                requires
                    0 < (near as int) <= 1_000_000,
                    0 < (far as int) <= 1000 * 1_000_000;
        }
        let nf: i64 = mul_div(near, far, UNIT);
        proof {
            crate::fixed::lemma_mul_div_contracts(near as int, far as int, UNIT as int, far as int);
        }
        let c: i64 = -mul_div(2 * nf, UNIT, far - near);
        Mat4 {
            x_axis: Vec4 { x: a, y: 0, z: 0, w: 0 },
            y_axis: Vec4 { x: 0, y: UNIT, z: 0, w: 0 },
            z_axis: Vec4 { x: 0, y: 0, z: b, w: -UNIT },
            w_axis: Vec4 { x: 0, y: 0, z: c, w: 0 },
        }
    }
}

/// The aspect ratio `width / height` in micro-units.
fn div_wide(width: u32, height: u32) -> (r: i64)
    requires
        height >= 1,
    ensures
        r == trunc_div(width as int * UNIT, height as int),
        r >= 0,
{
    let n: u64 = (width as u64) * 1_000_000;
    let q: u64 = n / (height as u64);
    proof {
        vstd::arithmetic::div_mod::lemma_div_is_ordered_by_denominator(n as int, 1, height as int);
        vstd::arithmetic::div_mod::lemma_div_basics_2(n as int);
        vstd::arithmetic::div_mod::lemma_div_pos_is_pos(n as int, height as int);
    }
    q as i64
}

} // verus!
