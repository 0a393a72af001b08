//! Fixed-point scalars and 3-vectors.
//!
//! Every world-space quantity in this crate is an `i64` holding micro-units:
//! the real value times [`UNIT`]. Products and quotients truncate toward
//! zero, exactly as [`trunc_div`] states.

use vstd::prelude::*;

verus! {

/// One world-space unit: the fixed-point scaling factor (micro-units).
pub const UNIT: i64 = 1_000_000;

/// Bound kept on every stored coordinate so that a product of two
/// coordinates, and a coordinate times `UNIT`, always fit in an `i64`.
pub const COORD_LIMIT: i64 = 0x4000_0000;

/// Truncating division (round toward zero), for a positive divisor.
/// This is the rounding that Rust's `/` performs on machine integers.
pub open spec fn trunc_div(p: int, d: int) -> int {
    if p >= 0 {
        p / d
    } else {
        -((-p) / d)
    }
}

/// `a * b / d`, rounding the quotient toward zero.
pub open spec fn mul_div_trunc(a: int, b: int, d: int) -> int {
    trunc_div(a * b, d)
}

/// Division that rounds toward zero, as Rust's `/` does on machine
/// integers.
pub fn div_trunc(p: i64, d: i64) -> (r: i64)
    requires
        p > i64::MIN,
        d >= 1,
    ensures
        r == trunc_div(p as int, d as int),
{
    if p >= 0 {
        let q: u64 = (p as u64) / (d as u64);
        proof {
            vstd::arithmetic::div_mod::lemma_div_is_ordered_by_denominator(p as int, 1, d as int);
            vstd::arithmetic::div_mod::lemma_div_basics_2(p as int);
        }
        q as i64
    } else {
        let q: u64 = ((-p) as u64) / (d as u64);
        proof {
            vstd::arithmetic::div_mod::lemma_div_is_ordered_by_denominator(
                -(p as int),
                1,
                d as int,
            );
            vstd::arithmetic::div_mod::lemma_div_basics_2(-(p as int));
        }
        -(q as i64)
    }
}

/// Division by `UNIT` that rounds toward zero, total over `i64`.
fn div_unit_trunc(p: i64) -> (r: i64)
    requires
        p > i64::MIN,
    ensures
        r == trunc_div(p as int, UNIT as int),
{
    div_trunc(p, UNIT)
}

/// Addition clamped into the `i64` range.
pub open spec fn spec_sat_add(a: int, b: int) -> int {
    if a + b > i64::MAX {
        i64::MAX as int
    } else if a + b < i64::MIN {
        i64::MIN as int
    } else {
        a + b
    }
}

/// Adds and clamps into the `i64` range.
pub fn sat_add(a: i64, b: i64) -> (r: i64)
    ensures
        r == spec_sat_add(a as int, b as int),
{
    let s: i128 = a as i128 + b as i128;
    if s > i64::MAX as i128 {
        i64::MAX
    } else if s < i64::MIN as i128 {
        i64::MIN
    } else {
        s as i64
    }
}

/// With `|a| <= d` and `|b| <= bb`, the truncated product `a * b / d`
/// keeps magnitude at most `bb`.
pub proof fn lemma_mul_div_contracts(a: int, b: int, d: int, bb: int)
    requires
        d >= 1,
        -d <= a <= d,
        -bb <= b <= bb,
        0 <= bb,
    ensures
        -bb <= mul_div_trunc(a, b, d) <= bb,
{
    assert(-(d * bb) <= a * b <= d * bb) by (nonlinear_arith)
        requires
            d >= 1,
            -d <= a <= d,
            -bb <= b <= bb,
            0 <= bb;
    assert(d * bb >= 0) by (nonlinear_arith)
        requires
            d >= 1,
            0 <= bb;
    lemma_trunc_div_bound(a * b, d, d * bb);
    assert((d * bb) / d == bb) by (nonlinear_arith)
        requires
            d >= 1,
            0 <= bb;
}

/// The magnitude bound of a truncating quotient, stated for callers: with
/// `|p| <= m` the quotient by `d` has magnitude at most `m / d`.
pub proof fn lemma_trunc_div_magnitude(p: int, d: int, m: int)
    requires
        d > 0,
        0 <= m,
        -m <= p <= m,
    ensures
        -(m / d) <= trunc_div(p, d) <= m / d,
{
    lemma_trunc_div_bound(p, d, m);
}

/// The magnitude of a truncating quotient never exceeds the magnitude of
/// the corresponding exact quotient's bounds.
proof fn lemma_trunc_div_bound(p: int, d: int, m: int)
    requires
        d > 0,
        0 <= m,
        -m <= p <= m,
    ensures
        -(m / d) <= trunc_div(p, d) <= m / d,
{
    if p >= 0 {
        vstd::arithmetic::div_mod::lemma_div_is_ordered(p, m, d);
        vstd::arithmetic::div_mod::lemma_div_pos_is_pos(p, d);
    } else {
        vstd::arithmetic::div_mod::lemma_div_is_ordered(-p, m, d);
        vstd::arithmetic::div_mod::lemma_div_pos_is_pos(-p, d);
    }
}

/// A fixed-point 3-vector; each component holds micro-units.
#[derive(Clone, Copy, PartialEq, Eq, Structural, Debug)]
pub struct Vec3 {
    pub x: i64,
    pub y: i64,
    pub z: i64,
}

impl Vec3 {
    /// Every component has magnitude at most `m`.
    pub open spec fn bounded(self, m: int) -> bool {
        &&& -m <= self.x <= m
        &&& -m <= self.y <= m
        &&& -m <= self.z <= m
    }

    pub open spec fn spec_zero() -> Vec3 {
        Vec3 { x: 0, y: 0, z: 0 }
    }

    pub open spec fn spec_plus(self, o: Vec3) -> Vec3 {
        Vec3 { x: (self.x + o.x) as i64, y: (self.y + o.y) as i64, z: (self.z + o.z) as i64 }
    }

    pub open spec fn spec_minus(self, o: Vec3) -> Vec3 {
        Vec3 { x: (self.x - o.x) as i64, y: (self.y - o.y) as i64, z: (self.z - o.z) as i64 }
    }

    /// The fixed-point cross product: each exact product of two micro-unit
    /// components carries a factor `UNIT * UNIT`, so one factor is divided
    /// back out, truncating toward zero.
    pub open spec fn spec_cross(self, o: Vec3) -> Vec3 {
        Vec3 {
            x: trunc_div(self.y * o.z - self.z * o.y, UNIT as int) as i64,
            y: trunc_div(self.z * o.x - self.x * o.z, UNIT as int) as i64,
            z: trunc_div(self.x * o.y - self.y * o.x, UNIT as int) as i64,
        }
    }

    /// Squared length in squared micro-units.
    pub open spec fn spec_norm_sq(self) -> int {
        self.x * self.x + self.y * self.y + self.z * self.z
    }

    /// Length in micro-units: the integer square root of the squared length.
    pub open spec fn spec_len(self) -> int {
        isqrt_spec(self.spec_norm_sq())
    }

    /// The unit vector with this vector's direction, components truncated
    /// toward zero; the zero vector stays the zero vector.
    pub open spec fn spec_normalize(self) -> Vec3 {
        let l = self.spec_len();
        if l == 0 {
            self
        } else {
            Vec3 {
                x: trunc_div(self.x * UNIT, l) as i64,
                y: trunc_div(self.y * UNIT, l) as i64,
                z: trunc_div(self.z * UNIT, l) as i64,
            }
        }
    }

    pub fn new(x: i64, y: i64, z: i64) -> (r: Vec3)
        ensures
            r == (Vec3 { x, y, z }),
    {
        Vec3 { x, y, z }
    }

    pub fn zero() -> (r: Vec3)
        ensures
            r == Vec3::spec_zero(),
    {
        Vec3 { x: 0, y: 0, z: 0 }
    }

    pub fn plus(self, o: Vec3) -> (r: Vec3)
        requires
            i64::MIN <= self.x + o.x <= i64::MAX,
            i64::MIN <= self.y + o.y <= i64::MAX,
            i64::MIN <= self.z + o.z <= i64::MAX,
        ensures
            r == self.spec_plus(o),
    {
        Vec3 { x: self.x + o.x, y: self.y + o.y, z: self.z + o.z }
    }

    pub fn minus(self, o: Vec3) -> (r: Vec3)
        requires
            i64::MIN <= self.x - o.x <= i64::MAX,
            i64::MIN <= self.y - o.y <= i64::MAX,
            i64::MIN <= self.z - o.z <= i64::MAX,
        ensures
            r == self.spec_minus(o),
    {
        Vec3 { x: self.x - o.x, y: self.y - o.y, z: self.z - o.z }
    }

    pub fn cross(self, o: Vec3) -> (r: Vec3)
        requires
            self.bounded(COORD_LIMIT as int),
            o.bounded(COORD_LIMIT as int),
        ensures
            r == self.spec_cross(o),
            r.bounded(COORD_LIMIT as int * COORD_LIMIT as int * 2 / UNIT as int),
    {
        proof {
            lemma_prod_bound(self.y as int, o.z as int, COORD_LIMIT as int);
            lemma_prod_bound(self.z as int, o.y as int, COORD_LIMIT as int);
            lemma_prod_bound(self.z as int, o.x as int, COORD_LIMIT as int);
            lemma_prod_bound(self.x as int, o.z as int, COORD_LIMIT as int);
            lemma_prod_bound(self.x as int, o.y as int, COORD_LIMIT as int);
            lemma_prod_bound(self.y as int, o.x as int, COORD_LIMIT as int);
        }
        let px: i64 = self.y * o.z - self.z * o.y;
        let py: i64 = self.z * o.x - self.x * o.z;
        let pz: i64 = self.x * o.y - self.y * o.x;
        proof {
            let m = COORD_LIMIT as int * COORD_LIMIT as int * 2;
            lemma_trunc_div_bound(px as int, UNIT as int, m);
            lemma_trunc_div_bound(py as int, UNIT as int, m);
            lemma_trunc_div_bound(pz as int, UNIT as int, m);
        }
        Vec3 { x: div_unit_trunc(px), y: div_unit_trunc(py), z: div_unit_trunc(pz) }
    }

    /// Length in micro-units.
    pub fn len(self) -> (r: u64)
        requires
            self.bounded(COORD_LIMIT as int),
        ensures
            r == self.spec_len(),
            r <= 2 * COORD_LIMIT,
    {
        proof {
            lemma_prod_bound(self.x as int, self.x as int, COORD_LIMIT as int);
            lemma_prod_bound(self.y as int, self.y as int, COORD_LIMIT as int);
            lemma_prod_bound(self.z as int, self.z as int, COORD_LIMIT as int);
            assert(self.x * self.x >= 0) by (nonlinear_arith);
            assert(self.y * self.y >= 0) by (nonlinear_arith);
            assert(self.z * self.z >= 0) by (nonlinear_arith);
        }
        let sq: i64 = self.x * self.x + self.y * self.y + self.z * self.z;
        let r = isqrt(sq as u64);
        proof {
            let cl = COORD_LIMIT as int;
            assert((2 * cl) * (2 * cl) >= sq as int) by (nonlinear_arith)
                requires
                    0 <= (sq as int) <= 3 * cl * cl,
                    cl == 0x4000_0000,
            ;
            lemma_isqrt_le(sq as int, 2 * cl);
        }
        r
    }

    /// Truncated dot product in micro-units.
    pub open spec fn spec_dot(self, o: Vec3) -> int {
        trunc_div(self.x * o.x + self.y * o.y + self.z * o.z, UNIT as int)
    }

    pub fn dot(self, o: Vec3) -> (r: i64)
        requires
            self.bounded(COORD_LIMIT as int),
            o.bounded(COORD_LIMIT as int),
        ensures
            r == self.spec_dot(o),
            i64::MIN < r < i64::MAX,
    {
        proof {
            lemma_prod_bound(self.x as int, o.x as int, COORD_LIMIT as int);
            lemma_prod_bound(self.y as int, o.y as int, COORD_LIMIT as int);
            lemma_prod_bound(self.z as int, o.z as int, COORD_LIMIT as int);
        }
        let s: i64 = self.x * o.x + self.y * o.y + self.z * o.z;
        proof {
            let m = 3 * (COORD_LIMIT as int) * (COORD_LIMIT as int);
            assert(m == COORD_LIMIT as int * COORD_LIMIT as int + COORD_LIMIT as int
                * COORD_LIMIT as int + COORD_LIMIT as int * COORD_LIMIT as int)
                by (nonlinear_arith)
                requires
                    m == 3 * (COORD_LIMIT as int) * (COORD_LIMIT as int);
            lemma_trunc_div_bound(s as int, UNIT as int, m);
        }
        div_trunc(s, UNIT)
    }

    pub fn normalize(self) -> (r: Vec3)
        requires
            self.bounded(COORD_LIMIT as int),
        ensures
            r == self.spec_normalize(),
            r.bounded(UNIT as int),
    {
        let l = self.len();
        if l == 0 {
            proof {
                lemma_zero_len_is_zero(self);
            }
            self
        } else {
            proof {
                let cl = COORD_LIMIT as int;
                lemma_prod_bound(self.x as int, self.x as int, cl);
                lemma_prod_bound(self.y as int, self.y as int, cl);
                lemma_prod_bound(self.z as int, self.z as int, cl);
                assert(self.x * self.x >= 0) by (nonlinear_arith);
                assert(self.y * self.y >= 0) by (nonlinear_arith);
                assert(self.z * self.z >= 0) by (nonlinear_arith);
                lemma_component_le_len(self.x as int, self.spec_norm_sq(), l as int);
                lemma_component_le_len(self.y as int, self.spec_norm_sq(), l as int);
                lemma_component_le_len(self.z as int, self.spec_norm_sq(), l as int);
            }
            let nx = mul_div(self.x, UNIT, l as i64);
            let ny = mul_div(self.y, UNIT, l as i64);
            let nz = mul_div(self.z, UNIT, l as i64);
            Vec3 { x: nx, y: ny, z: nz }
        }
    }
}

/// If `c*c` contributes to `sq` and `l = isqrt(sq)`, then `|c| <= l`, and
/// scaling `c` by `UNIT / l` keeps the magnitude at most `UNIT`.
proof fn lemma_component_le_len(c: int, sq: int, l: int)
    requires
        0 <= c * c <= sq,
        sq < 0x1_0000_0000_0000_0000,
        l == isqrt_spec(sq),
        l >= 1,
    ensures
        -l <= c <= l,
        -UNIT <= trunc_div(c * UNIT, l) <= UNIT,
        c * UNIT > i64::MIN,
        c * UNIT < i64::MAX,
{
    lemma_isqrt_spec_props(sq);
    assert(sq < (l + 1) * (l + 1));
    assert(l <= 0x1_0000_0000);
    assert(-l <= c <= l) by (nonlinear_arith)
        requires
            c * c <= sq,
            sq < (l + 1) * (l + 1),
            l >= 1;
    assert(-(l * UNIT) <= c * UNIT <= l * UNIT) by (nonlinear_arith)
        requires
            -l <= c <= l,
            UNIT == 1_000_000;
    lemma_trunc_div_bound(c * UNIT, l, l * UNIT);
    assert((l * UNIT) / l == UNIT) by (nonlinear_arith)
        requires
            l >= 1,
            UNIT == 1_000_000;
    assert(l * UNIT < i64::MAX) by (nonlinear_arith)
        requires
            1 <= l <= 0x1_0000_0000,
            UNIT == 1_000_000;
}

/// `a * b / d` with the quotient truncated toward zero; `a` must already be
/// bounded in magnitude by `d`-scaled terms small enough not to overflow.
pub fn mul_div(a: i64, b: i64, d: i64) -> (r: i64)
    requires
        d >= 1,
        a > i64::MIN,
        b > i64::MIN,
        -i64::MAX <= a * b <= i64::MAX,
    ensures
        r == mul_div_trunc(a as int, b as int, d as int),
{
    let ghost ab: int = a as int * b as int;
    let neg: bool = (a < 0) != (b < 0);
    let ua: u64 = if a < 0 {
        (-a) as u64
    } else {
        a as u64
    };
    let ub: u64 = if b < 0 {
        (-b) as u64
    } else {
        b as u64
    };
    proof {
        assert((ua as int * ub as int == if ab >= 0 { ab } else { -ab })
            && (neg ==> ab <= 0) && (!neg ==> ab >= 0)) by (nonlinear_arith)
            requires
                ab == a as int * b as int,
                neg == ((a < 0) != (b < 0)),
                ua as int == (if a < 0 { -(a as int) } else { a as int }),
                ub as int == (if b < 0 { -(b as int) } else { b as int });
        assert(ua as int * ub as int <= i64::MAX);
    }
    let p: u64 = ua * ub;
    let q: u64 = p / (d as u64);
    proof {
        vstd::arithmetic::div_mod::lemma_div_is_ordered_by_denominator(p as int, 1, d as int);
        vstd::arithmetic::div_mod::lemma_div_basics_2(p as int);
        assert(q as int <= p as int);
        if neg {
            assert(-ab >= 0);
            assert(p as int == -ab);
            assert(trunc_div(ab, d as int) == -(q as int));
        } else {
            assert(p as int == ab);
            assert(trunc_div(ab, d as int) == q as int);
        }
    }
    if neg {
        -(q as i64)
    } else {
        q as i64
    }
}

/// A vector whose length rounds to zero is the zero vector.
proof fn lemma_zero_len_is_zero(v: Vec3)
    requires
        v.bounded(COORD_LIMIT as int),
        v.spec_len() == 0,
    ensures
        v == Vec3::spec_zero(),
{
    assert(v.x * v.x >= 0 && v.y * v.y >= 0 && v.z * v.z >= 0) by (nonlinear_arith);
    lemma_isqrt_spec_props(v.spec_norm_sq());
    assert(v.spec_norm_sq() < (0 + 1) * (0 + 1));
    assert(v.x * v.x == 0 && v.y * v.y == 0 && v.z * v.z == 0);
    assert(v.x == 0 && v.y == 0 && v.z == 0) by (nonlinear_arith)
        requires
            v.x * v.x == 0,
            v.y * v.y == 0,
            v.z * v.z == 0;
}

/// Crossing two vectors bounded by `m` gives a vector bounded by
/// `2 * m * m / UNIT`.
pub proof fn lemma_cross_bounded(a: Vec3, b: Vec3, m: int)
    requires
        0 <= m,
        a.bounded(m),
        b.bounded(m),
    ensures
        a.spec_cross(b).bounded(2 * m * m / UNIT as int),
{
    lemma_prod_bound(a.y as int, b.z as int, m);
    lemma_prod_bound(a.z as int, b.y as int, m);
    lemma_prod_bound(a.z as int, b.x as int, m);
    lemma_prod_bound(a.x as int, b.z as int, m);
    lemma_prod_bound(a.x as int, b.y as int, m);
    lemma_prod_bound(a.y as int, b.x as int, m);
    assert(2 * (m * m) >= 0) by (nonlinear_arith)
        requires
            m >= 0;
    lemma_trunc_div_bound(a.y * b.z - a.z * b.y, UNIT as int, 2 * (m * m));
    lemma_trunc_div_bound(a.z * b.x - a.x * b.z, UNIT as int, 2 * (m * m));
    lemma_trunc_div_bound(a.x * b.y - a.y * b.x, UNIT as int, 2 * (m * m));
    assert(2 * (m * m) == 2 * m * m) by (nonlinear_arith);
}

/// A fixed-point 2-vector: a texture coordinate.
#[derive(Clone, Copy, PartialEq, Eq, Structural, Debug)]
pub struct Vec2 {
    pub x: i64,
    pub y: i64,
}

impl Vec2 {
    pub fn new(x: i64, y: i64) -> (r: Vec2)
        ensures
            r == (Vec2 { x, y }),
    {
        Vec2 { x, y }
    }
}

/// A fixed-point 4-vector: one column of a matrix, or a color.
#[derive(Clone, Copy, PartialEq, Eq, Structural, Debug)]
pub struct Vec4 {
    pub x: i64,
    pub y: i64,
    pub z: i64,
    pub w: i64,
}

impl Vec4 {
    pub fn new(x: i64, y: i64, z: i64, w: i64) -> (r: Vec4)
        ensures
            r == (Vec4 { x, y, z, w }),
    {
        Vec4 { x, y, z, w }
    }
}

/// `|a| <= m` and `|b| <= m` bound the product by `m * m`.
proof fn lemma_prod_bound(a: int, b: int, m: int)
    requires
        0 <= m,
        -m <= a <= m,
        -m <= b <= m,
    ensures
        -(m * m) <= a * b <= m * m,
{
    assert(-(m * m) <= a * b <= m * m) by (nonlinear_arith)
        requires
            0 <= m,
            -m <= a <= m,
            -m <= b <= m;
}

/// The integer square root: the largest `r` with `r * r <= n`.
pub open spec fn isqrt_spec(n: int) -> int
    recommends
        n >= 0,
{
    choose|r: int| r >= 0 && #[trigger] (r * r) <= n && (r + 1) * (r + 1) > n
}

proof fn lemma_isqrt_exists(n: int)
    requires
        n >= 0,
    ensures
        exists|r: int| r >= 0 && #[trigger] (r * r) <= n && (r + 1) * (r + 1) > n,
    decreases n,
{
    if n == 0 {
        assert(0 * 0 <= n && (0 + 1) * (0 + 1) > n) by (nonlinear_arith)
            requires
                n == 0;
    } else {
        lemma_isqrt_exists(n - 1);
        let p = choose|r: int| r >= 0 && #[trigger] (r * r) <= n - 1 && (r + 1) * (r + 1) > n - 1;
        if (p + 1) * (p + 1) > n {
            assert(p * p <= n);
        } else {
            assert((p + 1) * (p + 1) <= n);
            assert((p + 2) * (p + 2) > n) by (nonlinear_arith)
                requires
                    (p + 1) * (p + 1) > n - 1,
                    (p + 1) * (p + 1) <= n,
                    p >= 0;
        }
    }
}

/// The root picked by `isqrt_spec` is the unique integer square root.
proof fn lemma_isqrt_spec_props(n: int)
    requires
        n >= 0,
    ensures
        isqrt_spec(n) >= 0,
        isqrt_spec(n) * isqrt_spec(n) <= n,
        (isqrt_spec(n) + 1) * (isqrt_spec(n) + 1) > n,
        n < 0x1_0000_0000_0000_0000 ==> isqrt_spec(n) <= 0x1_0000_0000,
{
    lemma_isqrt_exists(n);
    let r = isqrt_spec(n);
    assert(r >= 0 && r * r <= n && (r + 1) * (r + 1) > n);
    if n < 0x1_0000_0000_0000_0000 && r > 0x1_0000_0000 {
        assert(r * r > 0x1_0000_0000_0000_0000) by (nonlinear_arith)
            requires
                r > 0x1_0000_0000;
    }
}

/// `m * m >= n` bounds the square root by `m`.
proof fn lemma_isqrt_le(n: int, m: int)
    requires
        0 <= n,
        0 <= m,
        m * m >= n,
    ensures
        isqrt_spec(n) <= m,
{
    lemma_isqrt_spec_props(n);
    let r = isqrt_spec(n);
    if r > m {
        assert(r * r > m * m) by (nonlinear_arith)
            requires
                r > m >= 0;
    }
}

/// Integer square root by binary search.
pub fn isqrt(n: u64) -> (r: u64)
    ensures
        r == isqrt_spec(n as int),
        r <= 0xFFFF_FFFF,
{
    let mut lo: u64 = 0;
    let mut hi: u64 = 0x1_0000_0000;
    proof {
        assert((0x1_0000_0000 as int) * (0x1_0000_0000 as int) > n as int) by (nonlinear_arith)
            requires
                (n as int) < 0x1_0000_0000_0000_0000,
            ;
    }
    while lo + 1 < hi
        invariant
            0 <= lo < hi <= 0x1_0000_0000,
            lo * lo <= n,
            hi as int * hi as int > n as int,
        decreases hi - lo,
    {
        let mid: u64 = lo + (hi - lo) / 2;
        proof {
            assert(lo < mid < hi);
            assert((mid as int) * (mid as int) < 0x1_0000_0000_0000_0000) by (nonlinear_arith)
                requires
                    0 <= (mid as int) <= 0xFFFF_FFFF,
                ;
        }
        if mid * mid <= n {
            lo = mid;
        } else {
            hi = mid;
        }
    }
    proof {
        lemma_isqrt_spec_props(n as int);
        let r = isqrt_spec(n as int);
        assert(r == lo as int) by (nonlinear_arith)
            requires
                r >= 0,
                r * r <= n as int,
                (r + 1) * (r + 1) > n as int,
                lo as int * lo as int <= n as int,
                (lo as int + 1) * (lo as int + 1) > n as int,
                lo >= 0;
    }
    lo
}

} // verus!
