//! Procedural terrain heights over gradient-noise samples.
//!
//! A [`HeightField`] turns a noise sample for a grid point into a
//! whole-unit surface height. The sampler itself (a seeded Perlin noise
//! field, a pure function of seed and point) lives outside this library,
//! because it computes in floating point; it hands each sample over as a
//! fixed-point value in `[-UNIT, UNIT]`. Everything from the sample to the
//! height — amplitude scaling, midline lift, truncation, clamping — is
//! verified here: the same sample always gives the same height, and every
//! height lies in `[0, amplitude_basis]`.

use crate::fixed::{mul_div, trunc_div, UNIT};
use vstd::prelude::*;

verus! {

/// Reciprocal of the noise sampling scale: the sampler divides grid
/// coordinates by this before sampling. A larger divisor gives smoother,
/// wider hills.
pub const NOISE_SCALE_DIV: u64 = 100;

/// The largest amplitude basis a height field accepts; keeps every
/// intermediate product of the height formula inside an `i64`.
pub const MAX_AMPLITUDE: usize = 10_000;

/// A noise sample folded into the unit range; samplers already promise the
/// range, so this only cuts off out-of-range values a caller might pass.
pub open spec fn spec_clamped_sample(n: int) -> int {
    if n < -UNIT {
        -UNIT as int
    } else if n > UNIT {
        UNIT as int
    } else {
        n
    }
}

/// The height for one noise sample: the sample in `[-UNIT, UNIT]` is
/// scaled by the amplitude (half the basis), lifted by the same amplitude
/// so the midline sits at half the basis, truncated to whole units, and
/// clamped into `[0, basis]`.
pub open spec fn spec_height(basis: int, sample: int) -> int {
    let amp = basis * (UNIT as int / 2);
    let lifted = trunc_div(spec_clamped_sample(sample) * amp, UNIT as int) + amp;
    let h = trunc_div(lifted, UNIT as int);
    if h < 0 {
        0
    } else if h > basis {
        basis
    } else {
        h
    }
}

/// Every height the formula can produce lies in `[0, basis]`, whatever
/// sample was handed in.
pub proof fn lemma_height_bounded(basis: int, sample: int)
    requires
        basis >= 0,
    ensures
        0 <= spec_height(basis, sample) <= basis,
{
}

/// A deterministic mapping from noise samples to surface heights, for one
/// terrain's seed and amplitude basis.
#[derive(Clone, Copy, PartialEq, Eq, Structural, Debug)]
pub struct HeightField {
    /// The seed the terrain's noise sampler was built with. The sampler is
    /// a pure function of this seed and the sampled point.
    pub seed: u32,
    /// The approximate maximum elevation: heights stay in `[0, basis]`.
    pub amplitude_basis: usize,
}

impl HeightField {
    pub open spec fn well_formed(self) -> bool {
        self.amplitude_basis <= MAX_AMPLITUDE
    }

    /// The surface height for the noise sample of one grid point.
    pub fn height_from_sample(&self, sample: i64) -> (h: usize)
        requires
            self.well_formed(),
        ensures
            h == spec_height(self.amplitude_basis as int, sample as int),
            h <= self.amplitude_basis,
    {
        let n: i64 = if sample < -UNIT {
            -UNIT
        } else if sample > UNIT {
            UNIT
        } else {
            sample
        };
        let amp: i64 = (self.amplitude_basis as i64) * (UNIT / 2);
        proof {
            assert(-i64::MAX <= n as int * amp as int <= i64::MAX) by (nonlinear_arith)
                requires
                    -1_000_000 <= (n as int) <= 1_000_000,
                    0 <= (amp as int) <= 10_000 * 500_000;
        }
        let scaled: i64 = mul_div(n, amp, UNIT);
        proof {
            crate::fixed::lemma_mul_div_contracts(n as int, amp as int, UNIT as int, amp as int);
        }
        let lifted: i64 = scaled + amp;
        let h: i64 = lifted / UNIT;
        proof {
            vstd::arithmetic::div_mod::lemma_div_pos_is_pos(lifted as int, UNIT as int);
            vstd::arithmetic::div_mod::lemma_div_is_ordered(
                lifted as int,
                2 * amp as int,
                UNIT as int,
            );
            assert((2 * amp as int) / (UNIT as int) <= self.amplitude_basis as int)
                by (nonlinear_arith)
                requires
                    amp as int == self.amplitude_basis as int * 500_000,
                    UNIT == 1_000_000;
        }
        if h < 0 {
            0
        } else if h > self.amplitude_basis as i64 {
            self.amplitude_basis
        } else {
            h as usize
        }
    }
}

/// Builds the height field for one terrain: a fixed seed and the
/// approximate maximum elevation of the terrain's variation.
pub fn terrain_builder(seed: u32, height: usize) -> (hf: HeightField)
    requires
        height <= MAX_AMPLITUDE,
    ensures
        hf == (HeightField { seed, amplitude_basis: height }),
        hf.well_formed(),
{
    HeightField { seed, amplitude_basis: height }
}

} // verus!
