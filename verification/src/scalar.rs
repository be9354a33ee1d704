//! Single-precision numbers, held by their encoding.
//!
//! The renderer's arithmetic is carried out elsewhere, in hardware. What is decided
//! here are the questions that steer a render: whether one number lies below another,
//! whether it is a number at all, which way it points. Those questions have exact
//! answers in terms of the 32 bits of an IEEE 754 binary32 value, and this module
//! gives them, together with the meaning of the bits as a rational number.

use vstd::prelude::*;
use vstd::arithmetic::power2::{pow2, lemma_pow2_pos, lemma_pow2_strictly_increases, lemma_pow2_unfold};

verus! {

/// The sign bit of a binary32 encoding.
pub const SIGN_BIT: u32 = 0x8000_0000;

/// The encoding of positive infinity; every larger magnitude encodes a NaN.
pub const INFINITY_BITS: u32 = 0x7f80_0000;

/// One more than the largest fraction field: 2^23.
pub const FRACTION_SPAN: u32 = 0x0080_0000;

/// The number that 23 fraction bits `f` and a biased exponent `e` stand for,
/// counted in units of 2^-149.
///
/// With `e == 0` the number is subnormal and is `f` units. Otherwise it is
/// `(2^23 + f) * 2^(e - 1)` units, which is `(1 + f / 2^23) * 2^(e - 127)`.
/// The formula is carried on to `e == 255`, where it places infinity at 2^277
/// units, above every finite number.
pub open spec fn units_of(magnitude_bits: nat) -> nat {
    let e = magnitude_bits / (FRACTION_SPAN as nat);
    let f = magnitude_bits % (FRACTION_SPAN as nat);
    if e == 0 {
        f
    } else {
        (FRACTION_SPAN as nat + f) * pow2((e - 1) as nat)
    }
}

/// A binary32 number: one sign bit, eight bits of biased exponent, 23 bits of
/// fraction, most significant first.
///
/// Every `u32` is an encoding, so the type has no invariant. Two scalars are `==`
/// when their encodings agree, which is finer than numeric equality: `0.0` and
/// `-0.0` differ, and a NaN equals itself.
#[derive(Clone, Copy, Debug, PartialEq, Eq, Structural)]
pub struct Scalar {
    pub bits: u32,
}

impl Scalar {
    /// Whether the sign bit is set. It may be set on zero, infinity and NaN too.
    pub open spec fn sign(self) -> bool {
        self.bits >= SIGN_BIT
    }

    /// The encoding without its sign bit.
    pub open spec fn magnitude_bits(self) -> nat {
        if self.bits >= SIGN_BIT {
            (self.bits - SIGN_BIT) as nat
        } else {
            self.bits as nat
        }
    }

    /// Whether the encoding is not a number.
    pub open spec fn nan(self) -> bool {
        self.magnitude_bits() > INFINITY_BITS
    }

    /// Whether the encoding is positive or negative infinity.
    pub open spec fn infinite(self) -> bool {
        self.magnitude_bits() == INFINITY_BITS
    }

    /// Whether the encoding is zero, subnormal or normal.
    pub open spec fn finite(self) -> bool {
        self.magnitude_bits() < INFINITY_BITS
    }

    /// The absolute value in units of 2^-149; 2^277 for an infinity.
    pub open spec fn magnitude(self) -> nat {
        units_of(self.magnitude_bits())
    }

    /// The number encoded, in units of 2^-149. Both zeros give 0; the infinities
    /// give plus and minus 2^277. The result has no meaning for a NaN.
    pub open spec fn scaled(self) -> int {
        if self.sign() {
            -(self.magnitude() as int)
        } else {
            self.magnitude() as int
        }
    }

    /// `self < other` as IEEE 754 orders numbers: false when either is a NaN.
    pub open spec fn below(self, other: Scalar) -> bool {
        !self.nan() && !other.nan() && self.scaled() < other.scaled()
    }

    /// `self <= other` as IEEE 754 orders numbers: false when either is a NaN.
    pub open spec fn at_most(self, other: Scalar) -> bool {
        !self.nan() && !other.nan() && self.scaled() <= other.scaled()
    }

    /// The encoding with its sign bit flipped.
    pub open spec fn negated(self) -> Scalar {
        if self.bits >= SIGN_BIT {
            Scalar { bits: (self.bits - SIGN_BIT) as u32 }
        } else {
            Scalar { bits: (self.bits + SIGN_BIT) as u32 }
        }
    }

    /// The signed integer whose order is the order of the numbers: the magnitude
    /// bits, negated when the sign bit is set.
    pub open spec fn rank(self) -> int {
        if self.sign() {
            -(self.magnitude_bits() as int)
        } else {
            self.magnitude_bits() as int
        }
    }

    pub fn from_bits(bits: u32) -> (r: Scalar)
        ensures
            r.bits == bits,
    {
        Scalar { bits }
    }

    pub fn to_bits(self) -> (r: u32)
        ensures
            r == self.bits,
    {
        self.bits
    }

    /// Positive zero.
    pub fn zero() -> (r: Scalar)
        ensures
            r.bits == 0,
            r.scaled() == 0,
            !r.nan(),
    {
        Scalar { bits: 0 }
    }

    /// The number one: biased exponent 127, fraction zero.
    pub fn one() -> (r: Scalar)
        ensures
            r.bits == 0x3f80_0000,
            !r.nan(),
            !r.sign(),
    {
        Scalar { bits: 0x3f80_0000 }
    }

    /// Positive infinity.
    pub fn infinity() -> (r: Scalar)
        ensures
            r.bits == INFINITY_BITS,
            r.infinite(),
            !r.sign(),
    {
        Scalar { bits: INFINITY_BITS }
    }

    fn abs_bits(self) -> (m: u32)
        ensures
            m == self.magnitude_bits(),
            m < SIGN_BIT,
    {
        if self.bits >= SIGN_BIT {
            self.bits - SIGN_BIT
        } else {
            self.bits
        }
    }

    pub fn is_nan(self) -> (r: bool)
        ensures
            r == self.nan(),
    {
        self.abs_bits() > INFINITY_BITS
    }

    pub fn is_sign_negative(self) -> (r: bool)
        ensures
            r == self.sign(),
    {
        self.bits >= SIGN_BIT
    }

    fn order_key(self) -> (k: i64)
        ensures
            k == self.rank(),
    {
        let m: u32 = self.abs_bits();
        if self.bits >= SIGN_BIT {
            -(m as i64)
        } else {
            m as i64
        }
    }

    /// IEEE 754 `<`.
    pub fn lt(self, other: Scalar) -> (r: bool)
        ensures
            r == self.below(other),
    {
        if self.is_nan() || other.is_nan() {
            false
        } else {
            proof {
                lemma_rank_orders(self, other);
            }
            self.order_key() < other.order_key()
        }
    }

    /// IEEE 754 `<=`.
    pub fn le(self, other: Scalar) -> (r: bool)
        ensures
            r == self.at_most(other),
    {
        if self.is_nan() || other.is_nan() {
            false
        } else {
            proof {
                lemma_rank_orders(self, other);
            }
            self.order_key() <= other.order_key()
        }
    }

    /// IEEE 754 `>`.
    pub fn gt(self, other: Scalar) -> (r: bool)
        ensures
            r == other.below(self),
    {
        other.lt(self)
    }

    /// IEEE 754 `>=`.
    pub fn ge(self, other: Scalar) -> (r: bool)
        ensures
            r == other.at_most(self),
    {
        other.le(self)
    }

    /// The larger of two numbers, a NaN yielding to a number: `self` where
    /// `other` is a NaN or lies below it, else `other`. Of two equal numbers,
    /// which differ at most in the sign of zero, this is `other`, and of two
    /// NaNs too.
    pub open spec fn larger(self, other: Scalar) -> Scalar {
        if !self.nan() && (other.nan() || other.below(self)) {
            self
        } else {
            other
        }
    }

    /// The smaller of two numbers, a NaN yielding to a number: `self` where
    /// `other` is a NaN or lies above it, else `other`.
    pub open spec fn smaller(self, other: Scalar) -> Scalar {
        if !self.nan() && (other.nan() || self.below(other)) {
            self
        } else {
            other
        }
    }

    /// The maximum of two numbers, ignoring a NaN.
    pub fn max(self, other: Scalar) -> (r: Scalar)
        ensures
            r == self.larger(other),
            !other.nan() ==> other.at_most(r),
            !self.nan() ==> self.at_most(r),
            r.nan() ==> self.nan() && other.nan(),
    {
        if !self.is_nan() && (other.is_nan() || other.lt(self)) {
            self
        } else {
            other
        }
    }

    /// The minimum of two numbers, ignoring a NaN.
    pub fn min(self, other: Scalar) -> (r: Scalar)
        ensures
            r == self.smaller(other),
            !other.nan() ==> r.at_most(other),
            !self.nan() ==> r.at_most(self),
            r.nan() ==> self.nan() && other.nan(),
    {
        if !self.is_nan() && (other.is_nan() || self.lt(other)) {
            self
        } else {
            other
        }
    }

    /// The number with the opposite sign. A NaN stays a NaN, zero changes its sign
    /// bit and nothing else.
    pub fn neg(self) -> (r: Scalar)
        ensures
            r == self.negated(),
            r.scaled() == -self.scaled(),
            r.nan() == self.nan(),
            r.sign() == !self.sign(),
            r.negated() == self,
    {
        if self.bits >= SIGN_BIT {
            Scalar { bits: self.bits - SIGN_BIT }
        } else {
            Scalar { bits: self.bits + SIGN_BIT }
        }
    }
}

/// A larger encoding, sign aside, stands for a larger magnitude.
pub proof fn lemma_units_increase(m1: nat, m2: nat)
    requires
        m1 < m2,
    ensures
        units_of(m1) < units_of(m2),
{
    let span = FRACTION_SPAN as nat;
    let e1 = m1 / span;
    let f1 = m1 % span;
    let e2 = m2 / span;
    let f2 = m2 % span;
    assert(m1 == span * e1 + f1 && m2 == span * e2 + f2 && f1 < span && f2 < span) by {
        vstd::arithmetic::div_mod::lemma_fundamental_div_mod(m1 as int, span as int);
        vstd::arithmetic::div_mod::lemma_fundamental_div_mod(m2 as int, span as int);
    }
    assert(e1 <= e2) by {
        vstd::arithmetic::div_mod::lemma_div_is_ordered(m1 as int, m2 as int, span as int);
    }
    if e1 == e2 {
        if e1 != 0 {
            let p = pow2((e1 - 1) as nat);
            lemma_pow2_pos((e1 - 1) as nat);
            assert((span + f1) * p < (span + f2) * p) by (nonlinear_arith)
                requires
                    f1 < f2,
                    p > 0,
            ;
        }
    } else {
        // The whole of one binade lies below the start of the next.
        let q = pow2((e2 - 1) as nat);
        lemma_pow2_pos((e2 - 1) as nat);
        assert(span * q <= (span + f2) * q) by (nonlinear_arith)
            requires
                q > 0,
        ;
        if e1 == 0 {
            assert(span * 1 <= span * q) by (nonlinear_arith)
                requires
                    q >= 1,
            ;
        } else {
            let p = pow2((e1 - 1) as nat);
            lemma_pow2_pos((e1 - 1) as nat);
            lemma_pow2_unfold(e1);
            assert(pow2(e1) == 2 * p);
            assert(pow2(e1) <= q) by {
                if e1 < e2 - 1 {
                    lemma_pow2_strictly_increases(e1, (e2 - 1) as nat);
                }
            }
            assert((span + f1) * p < span * (2 * p)) by (nonlinear_arith)
                requires
                    f1 < span,
                    p > 0,
            ;
            assert(span * (2 * p) <= span * q) by (nonlinear_arith)
                requires
                    2 * p <= q,
            ;
        }
    }
}

/// Only the zero encoding stands for zero.
pub proof fn lemma_units_zero(m: nat)
    ensures
        units_of(m) == 0 <==> m == 0,
{
    if m > 0 {
        lemma_units_increase(0, m);
    }
    assert(units_of(0) == 0);
}

/// The rank of an encoding orders the numbers as their values do.
pub proof fn lemma_rank_orders(a: Scalar, b: Scalar)
    ensures
        a.rank() < b.rank() <==> a.scaled() < b.scaled(),
        a.rank() <= b.rank() <==> a.scaled() <= b.scaled(),
        a.rank() == b.rank() <==> a.scaled() == b.scaled(),
{
    let ma = a.magnitude_bits();
    let mb = b.magnitude_bits();
    lemma_units_zero(ma);
    lemma_units_zero(mb);
    if ma < mb {
        lemma_units_increase(ma, mb);
    }
    if mb < ma {
        lemma_units_increase(mb, ma);
    }
}

} // verus!
