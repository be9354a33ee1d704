//! Guards of the arithmetic.
//!
//! The renderer's formulas divide, and take square roots. No input makes them
//! fail: where a denominator could come near zero or a root's argument could
//! leave its domain, the number is clamped first. A clamp caps the variance of
//! a sample and does not reject it. This module holds the clamps, each with
//! the bounds that its result is sure to keep.

use vstd::prelude::*;
use crate::scalar::{lemma_rank_orders, Scalar};

verus! {

/// The encoding of `0.001`, the least that a guarded denominator or density
/// may be.
pub const EPSILON_BITS: u32 = 0x3a83_126f;

/// The encoding of `0.01`, the least microfacet slope.
pub const ALPHA_FLOOR_BITS: u32 = 0x3c23_d70a;

/// The encoding of `1.0`.
pub const ONE_BITS: u32 = 0x3f80_0000;

/// `x`, but at least `0.001`: a denominator or a density that is safe to
/// divide by. The result is a number whatever `x` is.
pub fn floor_epsilon(x: Scalar) -> (r: Scalar)
    ensures
        r == x.larger(Scalar { bits: EPSILON_BITS }),
        (Scalar { bits: EPSILON_BITS }).at_most(r),
        (Scalar { bits: 0 }).below(r),
{
    let floor = Scalar::from_bits(EPSILON_BITS);
    proof {
        lemma_rank_orders(Scalar { bits: 0 }, floor);
    }
    x.max(floor)
}

/// The microfacet slope of a surface, its roughness squared being given: the
/// square, but at least `0.01`, so that a perfectly smooth surface does not
/// make the microfacet terms singular.
pub fn alpha(roughness_squared: Scalar) -> (r: Scalar)
    ensures
        r == roughness_squared.larger(Scalar { bits: ALPHA_FLOOR_BITS }),
        (Scalar { bits: ALPHA_FLOOR_BITS }).at_most(r),
        (Scalar { bits: 0 }).below(r),
{
    let floor = Scalar::from_bits(ALPHA_FLOOR_BITS);
    proof {
        lemma_rank_orders(Scalar { bits: 0 }, floor);
    }
    roughness_squared.max(floor)
}

/// A cosine, but at most one, so that one less its square is not negative by
/// rounding alone.
pub fn cap_cosine(cosine: Scalar) -> (r: Scalar)
    ensures
        r == cosine.smaller(Scalar { bits: ONE_BITS }),
        r.at_most(Scalar { bits: ONE_BITS }),
{
    cosine.min(Scalar::from_bits(ONE_BITS))
}

/// The argument of a square root, brought into [0, 1]: at least zero, then at
/// most one. What is not a number becomes zero.
pub fn clamp_unit(x: Scalar) -> (r: Scalar)
    ensures
        r == x.larger(Scalar { bits: 0 }).smaller(Scalar { bits: ONE_BITS }),
        (Scalar { bits: 0 }).at_most(r),
        r.at_most(Scalar { bits: ONE_BITS }),
{
    proof {
        lemma_rank_orders(Scalar { bits: 0 }, Scalar { bits: ONE_BITS });
    }
    x.max(Scalar::zero()).min(Scalar::from_bits(ONE_BITS))
}

/// A colour channel, brought into [0, 1] before it is encoded: at most one,
/// then at least zero. What is not a number becomes one.
pub fn clamp_channel(x: Scalar) -> (r: Scalar)
    ensures
        r == x.smaller(Scalar { bits: ONE_BITS }).larger(Scalar { bits: 0 }),
        (Scalar { bits: 0 }).at_most(r),
        r.at_most(Scalar { bits: ONE_BITS }),
{
    proof {
        lemma_rank_orders(Scalar { bits: 0 }, Scalar { bits: ONE_BITS });
    }
    x.min(Scalar::from_bits(ONE_BITS)).max(Scalar::zero())
}

} // verus!
