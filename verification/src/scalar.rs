//! Single-precision scalars held as their IEEE 754 bit patterns.
//!
//! The verified code never touches a hardware float.  A [`Scalar`] is the
//! 32-bit encoding of a binary32 number.  Ordering, negation and truncation
//! to an integer are decided on the encoding itself and proved against their
//! definitions below.  Arithmetic that rounds is done by two software
//! implementations of IEEE 754, `rustc_apfloat` and `const_soft_float`; each
//! such operation enters the contracts under a name (`single_add` and so
//! on), of which nothing is assumed but that equal operands give equal
//! results.

use const_soft_float::soft_f32::SoftF32;
use rustc_apfloat::ieee::Single;
use rustc_apfloat::Float;
use vstd::arithmetic::power2::{lemma2_to64, pow2};
use vstd::bits::{lemma_u32_shl_is_mul, lemma_u32_shr_is_div};
use vstd::prelude::*;

verus! {

/// The sign bit of the encoding.
pub const SIGN_BIT: u32 = 0x8000_0000;

/// Encoding of positive infinity; every larger magnitude encodes a NaN.
pub const INFINITY_BITS: u32 = 0x7f80_0000;

/// Weight of the lowest exponent bit: encodings are `exponent * 2^23 + fraction`.
pub const FRACTION_SPAN: u32 = 0x80_0000;

/// Encoding of `0.0`.
pub const ZERO_BITS: u32 = 0;

/// Encoding of `1.0`.
pub const ONE_BITS: u32 = 0x3f80_0000;

/// Encoding of `2.0`.
pub const TWO_BITS: u32 = 0x4000_0000;

/// Encoding of `180.0`.
pub const HALF_TURN_BITS: u32 = 0x4334_0000;

/// Encoding of `255.0`.
pub const FULL_INTENSITY_BITS: u32 = 0x437f_0000;

/// Encoding of the single-precision value nearest to pi.
pub const PI_BITS: u32 = 0x4049_0fdb;

/// Sum of two encodings, rounded to nearest with ties to even.
pub uninterp spec fn single_add(a: u32, b: u32) -> u32;

/// Difference of two encodings, rounded to nearest with ties to even.
pub uninterp spec fn single_sub(a: u32, b: u32) -> u32;

/// Product of two encodings, rounded to nearest with ties to even.
pub uninterp spec fn single_mul(a: u32, b: u32) -> u32;

/// Quotient of two encodings, rounded to nearest with ties to even.
pub uninterp spec fn single_div(a: u32, b: u32) -> u32;

/// Remainder of the truncated division of two encodings; it carries the sign
/// of the dividend.
pub uninterp spec fn single_rem(a: u32, b: u32) -> u32;

/// Square root of an encoding, rounded to nearest; NaN for a negative number.
pub uninterp spec fn single_sqrt(a: u32) -> u32;

/// Sine of an encoding taken in radians, as the software routine computes
/// it: close to the nearest single-precision value, not always equal to it.
pub uninterp spec fn single_sin(a: u32) -> u32;

/// Cosine of an encoding taken in radians, with the accuracy of
/// [`single_sin`].
pub uninterp spec fn single_cos(a: u32) -> u32;

/// Encoding of the single-precision value nearest to an unsigned integer.
pub uninterp spec fn single_from_u32(n: u32) -> u32;

/// Calls the `+` operator of `rustc_apfloat::ieee::Single`, which is
/// `Float::add_r` with `Round::NearestTiesToEven`.  Trusted: the outcome is
/// a function of the two encodings alone, named [`single_add`].
#[verifier::external_body]
fn add_bits(a: u32, b: u32) -> (out: u32)
    ensures
        out == single_add(a, b),
{
    let sum = Single::from_bits(u128::from(a)) + Single::from_bits(u128::from(b));
    sum.value.to_bits() as u32
}

/// Calls the `-` operator of `rustc_apfloat::ieee::Single`, which is
/// `Float::sub_r` with `Round::NearestTiesToEven`.  Trusted: the outcome is
/// a function of the two encodings alone, named [`single_sub`].
#[verifier::external_body]
fn sub_bits(a: u32, b: u32) -> (out: u32)
    ensures
        out == single_sub(a, b),
{
    let difference = Single::from_bits(u128::from(a)) - Single::from_bits(u128::from(b));
    difference.value.to_bits() as u32
}

/// Calls the `*` operator of `rustc_apfloat::ieee::Single`, which is
/// `Float::mul_r` with `Round::NearestTiesToEven`.  Trusted: the outcome is
/// a function of the two encodings alone, named [`single_mul`].
#[verifier::external_body]
fn mul_bits(a: u32, b: u32) -> (out: u32)
    ensures
        out == single_mul(a, b),
{
    let product = Single::from_bits(u128::from(a)) * Single::from_bits(u128::from(b));
    product.value.to_bits() as u32
}

/// Calls the `/` operator of `rustc_apfloat::ieee::Single`, which is
/// `Float::div_r` with `Round::NearestTiesToEven`; a zero divisor yields an
/// infinity or a NaN, never a failure.  Trusted: the outcome is a function
/// of the two encodings alone, named [`single_div`].
#[verifier::external_body]
fn div_bits(a: u32, b: u32) -> (out: u32)
    ensures
        out == single_div(a, b),
{
    let quotient = Single::from_bits(u128::from(a)) / Single::from_bits(u128::from(b));
    quotient.value.to_bits() as u32
}

/// Calls the `%` operator of `rustc_apfloat::ieee::Single`, which is
/// `Float::c_fmod`.  Trusted: the outcome is a function of the two
/// encodings alone, named [`single_rem`].
#[verifier::external_body]
fn rem_bits(a: u32, b: u32) -> (out: u32)
    ensures
        out == single_rem(a, b),
{
    let remainder = Single::from_bits(u128::from(a)) % Single::from_bits(u128::from(b));
    remainder.value.to_bits() as u32
}

/// Calls `rustc_apfloat::Float::from_u128` on `ieee::Single`, which rounds
/// to nearest with ties to even.  Trusted: the outcome is a function of the
/// integer alone, named [`single_from_u32`].
#[verifier::external_body]
fn from_u32_bits(n: u32) -> (out: u32)
    ensures
        out == single_from_u32(n),
{
    Single::from_u128(u128::from(n)).value.to_bits() as u32
}

/// Calls `const_soft_float::soft_f32::SoftF32::sqrt`.  Trusted: the outcome
/// is a function of the encoding alone, named [`single_sqrt`].
#[verifier::external_body]
fn sqrt_bits(a: u32) -> (out: u32)
    ensures
        out == single_sqrt(a),
{
    SoftF32::from_bits(a).sqrt().to_bits()
}

/// Calls `const_soft_float::soft_f32::SoftF32::sin`.  Trusted: the outcome
/// is a function of the encoding alone, named [`single_sin`].
#[verifier::external_body]
fn sin_bits(a: u32) -> (out: u32)
    ensures
        out == single_sin(a),
{
    SoftF32::from_bits(a).sin().to_bits()
}

/// Calls `const_soft_float::soft_f32::SoftF32::cos`.  Trusted: the outcome
/// is a function of the encoding alone, named [`single_cos`].
#[verifier::external_body]
fn cos_bits(a: u32) -> (out: u32)
    ensures
        out == single_cos(a),
{
    SoftF32::from_bits(a).cos().to_bits()
}

/// A single-precision number, identified with its encoding.
#[derive(Clone, Copy, Debug)]
pub struct Scalar {
    pub bits: u32,
}

impl Scalar {
    /// The encoding without its sign bit.
    pub open spec fn magnitude(self) -> int {
        if self.bits >= SIGN_BIT {
            self.bits - SIGN_BIT
        } else {
            self.bits as int
        }
    }

    /// Whether the sign bit is set; true of `-0.0` and of some NaNs as well.
    pub open spec fn is_negative(self) -> bool {
        self.bits >= SIGN_BIT
    }

    /// Whether the encoding stands for no number.
    pub open spec fn is_nan(self) -> bool {
        self.magnitude() > INFINITY_BITS
    }

    /// Position on the extended number line.  For encodings that are not NaN
    /// the represented values are ordered exactly as their ranks are, and the
    /// two zeros share rank `0`.
    pub open spec fn rank(self) -> int {
        if self.is_negative() {
            -self.magnitude()
        } else {
            self.magnitude()
        }
    }

    /// IEEE `<`: false as soon as either side is NaN.
    pub open spec fn lt_spec(self, rhs: Scalar) -> bool {
        !self.is_nan() && !rhs.is_nan() && self.rank() < rhs.rank()
    }

    /// IEEE `<=`: false as soon as either side is NaN.
    pub open spec fn le_spec(self, rhs: Scalar) -> bool {
        !self.is_nan() && !rhs.is_nan() && self.rank() <= rhs.rank()
    }

    /// IEEE `>`: false as soon as either side is NaN.
    pub open spec fn gt_spec(self, rhs: Scalar) -> bool {
        !self.is_nan() && !rhs.is_nan() && self.rank() > rhs.rank()
    }

    /// IEEE `>=`: false as soon as either side is NaN.
    pub open spec fn ge_spec(self, rhs: Scalar) -> bool {
        !self.is_nan() && !rhs.is_nan() && self.rank() >= rhs.rank()
    }

    /// IEEE `!=`: true as soon as either side is NaN.
    pub open spec fn ne_spec(self, rhs: Scalar) -> bool {
        self.is_nan() || rhs.is_nan() || self.rank() != rhs.rank()
    }

    /// The same magnitude with the opposite sign bit.
    pub open spec fn neg_spec(self) -> Scalar {
        if self.bits >= SIGN_BIT {
            Scalar { bits: (self.bits - SIGN_BIT) as u32 }
        } else {
            Scalar { bits: (self.bits + SIGN_BIT) as u32 }
        }
    }

    pub open spec fn add_spec(self, rhs: Scalar) -> Scalar {
        Scalar { bits: single_add(self.bits, rhs.bits) }
    }

    pub open spec fn sub_spec(self, rhs: Scalar) -> Scalar {
        Scalar { bits: single_sub(self.bits, rhs.bits) }
    }

    pub open spec fn mul_spec(self, rhs: Scalar) -> Scalar {
        Scalar { bits: single_mul(self.bits, rhs.bits) }
    }

    pub open spec fn div_spec(self, rhs: Scalar) -> Scalar {
        Scalar { bits: single_div(self.bits, rhs.bits) }
    }

    pub open spec fn rem_spec(self, rhs: Scalar) -> Scalar {
        Scalar { bits: single_rem(self.bits, rhs.bits) }
    }

    pub open spec fn sqrt_spec(self) -> Scalar {
        Scalar { bits: single_sqrt(self.bits) }
    }

    /// The tangent as the quotient of sine and cosine.
    pub open spec fn tan_spec(self) -> Scalar {
        Scalar { bits: single_div(single_sin(self.bits), single_cos(self.bits)) }
    }

    pub open spec fn from_u32_spec(n: u32) -> Scalar {
        Scalar { bits: single_from_u32(n) }
    }

    /// The biased exponent field, `0..=255`.
    pub open spec fn exponent(self) -> int {
        self.magnitude() / (FRACTION_SPAN as int)
    }

    /// The significand of a normal number as an integer, implicit bit included.
    pub open spec fn significand(self) -> int {
        FRACTION_SPAN + self.magnitude() % (FRACTION_SPAN as int)
    }

    /// The integer part, saturated to the range of `u32`; NaN gives `0`.
    ///
    /// A normal number is `significand * 2^(exponent - 150)`.  Exponents below
    /// `127` mean a magnitude below one, exponents from `159` on a magnitude
    /// of at least `2^32`.
    pub open spec fn to_u32_spec(self) -> u32 {
        let e = self.exponent();
        if self.is_nan() || self.is_negative() || e < 127 {
            0
        } else if e >= 159 {
            u32::MAX
        } else if e >= 150 {
            (self.significand() * pow2((e - 150) as nat)) as u32
        } else {
            (self.significand() / (pow2((150 - e) as nat) as int)) as u32
        }
    }

    pub fn from_bits(bits: u32) -> (r: Scalar)
        ensures
            r.bits == bits,
    {
        Scalar { bits }
    }

    pub fn to_bits(self) -> (bits: u32)
        ensures
            bits == self.bits,
    {
        self.bits
    }

    fn is_nan_exec(self) -> (r: bool)
        ensures
            r == self.is_nan(),
    {
        if self.bits >= SIGN_BIT {
            self.bits - SIGN_BIT > INFINITY_BITS
        } else {
            self.bits > INFINITY_BITS
        }
    }

    fn rank_exec(self) -> (k: i64)
        ensures
            k == self.rank(),
    {
        if self.bits >= SIGN_BIT {
            let m: u32 = self.bits - SIGN_BIT;
            -(m as i64)
        } else {
            self.bits as i64
        }
    }

    pub fn lt(self, rhs: Scalar) -> (r: bool)
        ensures
            r == self.lt_spec(rhs),
    {
        !self.is_nan_exec() && !rhs.is_nan_exec() && self.rank_exec() < rhs.rank_exec()
    }

    pub fn le(self, rhs: Scalar) -> (r: bool)
        ensures
            r == self.le_spec(rhs),
    {
        !self.is_nan_exec() && !rhs.is_nan_exec() && self.rank_exec() <= rhs.rank_exec()
    }

    pub fn gt(self, rhs: Scalar) -> (r: bool)
        ensures
            r == self.gt_spec(rhs),
    {
        !self.is_nan_exec() && !rhs.is_nan_exec() && self.rank_exec() > rhs.rank_exec()
    }

    pub fn ge(self, rhs: Scalar) -> (r: bool)
        ensures
            r == self.ge_spec(rhs),
    {
        !self.is_nan_exec() && !rhs.is_nan_exec() && self.rank_exec() >= rhs.rank_exec()
    }

    pub fn ne(self, rhs: Scalar) -> (r: bool)
        ensures
            r == self.ne_spec(rhs),
    {
        self.is_nan_exec() || rhs.is_nan_exec() || self.rank_exec() != rhs.rank_exec()
    }

    pub fn neg(self) -> (r: Scalar)
        ensures
            r == self.neg_spec(),
    {
        if self.bits >= SIGN_BIT {
            Scalar { bits: self.bits - SIGN_BIT }
        } else {
            Scalar { bits: self.bits + SIGN_BIT }
        }
    }

    pub fn add(self, rhs: Scalar) -> (r: Scalar)
        ensures
            r == self.add_spec(rhs),
    {
        Scalar { bits: add_bits(self.bits, rhs.bits) }
    }

    pub fn sub(self, rhs: Scalar) -> (r: Scalar)
        ensures
            r == self.sub_spec(rhs),
    {
        Scalar { bits: sub_bits(self.bits, rhs.bits) }
    }

    pub fn mul(self, rhs: Scalar) -> (r: Scalar)
        ensures
            r == self.mul_spec(rhs),
    {
        Scalar { bits: mul_bits(self.bits, rhs.bits) }
    }

    pub fn div(self, rhs: Scalar) -> (r: Scalar)
        ensures
            r == self.div_spec(rhs),
    {
        Scalar { bits: div_bits(self.bits, rhs.bits) }
    }

    pub fn rem(self, rhs: Scalar) -> (r: Scalar)
        ensures
            r == self.rem_spec(rhs),
    {
        Scalar { bits: rem_bits(self.bits, rhs.bits) }
    }

    pub fn sqrt(self) -> (r: Scalar)
        ensures
            r == self.sqrt_spec(),
    {
        Scalar { bits: sqrt_bits(self.bits) }
    }

    pub fn tan(self) -> (r: Scalar)
        ensures
            r == self.tan_spec(),
    {
        Scalar { bits: div_bits(sin_bits(self.bits), cos_bits(self.bits)) }
    }

    pub fn from_u32(n: u32) -> (r: Scalar)
        ensures
            r == Scalar::from_u32_spec(n),
    {
        Scalar { bits: from_u32_bits(n) }
    }

    pub fn to_u32(self) -> (n: u32)
        ensures
            n == self.to_u32_spec(),
    {
        if self.bits >= SIGN_BIT || self.bits > INFINITY_BITS {
            return 0;
        }
        let e: u32 = self.bits / FRACTION_SPAN;
        let m: u32 = FRACTION_SPAN + self.bits % FRACTION_SPAN;
        if e < 127 {
            0
        } else if e >= 159 {
            u32::MAX
        } else if e >= 150 {
            let shift: u32 = e - 150;
            proof {
                lemma2_to64();
                assert(pow2(shift as nat) <= 256);
                assert(m * pow2(shift as nat) <= u32::MAX) by (nonlinear_arith)
                    requires
                        m < 0x100_0000,
                        pow2(shift as nat) <= 256,
                ;
                lemma_u32_shl_is_mul(m, shift);
            }
            m << shift
        } else {
            let shift: u32 = 150 - e;
            proof {
                lemma_u32_shr_is_div(m, shift);
            }
            m >> shift
        }
    }
}

/// Negating twice gives back the encoding, and negation mirrors the rank
/// without touching NaN-ness.
pub proof fn lemma_neg_mirrors(a: Scalar)
    ensures
        a.neg_spec().neg_spec() == a,
        a.neg_spec().rank() == -a.rank(),
        a.neg_spec().is_nan() == a.is_nan(),
{
}

/// On numbers, exactly one of `<`, `>` and equal rank holds, and `<` is
/// transitive; with a NaN on either side every ordered comparison is false.
pub proof fn lemma_order(a: Scalar, b: Scalar, c: Scalar)
    ensures
        a.gt_spec(b) == b.lt_spec(a),
        a.ge_spec(b) == b.le_spec(a),
        a.le_spec(b) == (a.lt_spec(b) || (!a.ne_spec(b))),
        !(a.lt_spec(b) && b.lt_spec(a)),
        a.lt_spec(b) && b.lt_spec(c) ==> a.lt_spec(c),
        a.le_spec(b) && b.le_spec(c) ==> a.le_spec(c),
        !a.is_nan() && !b.is_nan() ==> (a.lt_spec(b) || a.gt_spec(b) || !a.ne_spec(b)),
        a.is_nan() || b.is_nan() ==> !a.lt_spec(b) && !a.le_spec(b) && !a.gt_spec(b) && !a.ge_spec(
            b,
        ) && a.ne_spec(b),
{
}

} // verus!
