//! IEEE 754 binary floating-point values, held as their bit patterns.
//!
//! A value is a sign, a biased exponent field and a fraction field. All
//! reasoning is done on these three integers: classification, equality as
//! IEEE 754 defines it, and the exact conversion from single to double
//! precision.

use vstd::arithmetic::power2::{lemma2_to64, lemma_pow2_adds, lemma_pow2_pos, pow2};
use vstd::prelude::*;
use vstd::std_specs::cmp::PartialEqSpecImpl;

verus! {

/// A single-precision (binary32) value.
#[derive(Debug, Clone, Copy)]
pub struct Float32 {
    pub bits: u32,
}

/// A double-precision (binary64) value.
#[derive(Debug, Clone, Copy)]
pub struct Float64 {
    pub bits: u64,
}

/// How many doublings bring a nonzero single-precision fraction field up to
/// the position of the implicit leading bit.
pub open spec fn normalizing_shift(fraction: nat) -> nat
    decreases 0x100_0000 - fraction,
{
    if fraction == 0 || fraction >= 0x80_0000 {
        0
    } else {
        1 + normalizing_shift(2 * fraction)
    }
}

impl Float32 {
    /// The sign bit.
    pub open spec fn is_negative(self) -> bool {
        self.bits >= 0x8000_0000
    }

    /// The 8-bit biased exponent field.
    pub open spec fn exponent_field(self) -> nat {
        ((self.bits / 0x80_0000) % 0x100) as nat
    }

    /// The 23-bit fraction field.
    pub open spec fn fraction(self) -> nat {
        (self.bits % 0x80_0000) as nat
    }

    /// Not a number.
    pub open spec fn spec_is_nan(self) -> bool {
        self.exponent_field() == 0xff && self.fraction() != 0
    }

    /// Positive or negative infinity.
    pub open spec fn is_infinite(self) -> bool {
        self.exponent_field() == 0xff && self.fraction() == 0
    }

    /// Zero, subnormal or normal.
    pub open spec fn is_finite(self) -> bool {
        self.exponent_field() < 0xff
    }

    /// Positive or negative zero.
    pub open spec fn is_zero(self) -> bool {
        self.exponent_field() == 0 && self.fraction() == 0
    }

    /// For a finite value, the integer `m` with magnitude `m * 2^exponent()`.
    pub open spec fn significand(self) -> nat {
        if self.exponent_field() == 0 {
            self.fraction()
        } else {
            0x80_0000 + self.fraction()
        }
    }

    /// For a finite value, the power of two that scales `significand()`.
    pub open spec fn exponent(self) -> int {
        if self.exponent_field() == 0 {
            -149
        } else {
            self.exponent_field() - 150
        }
    }

    /// Equality as IEEE 754 defines it: a NaN equals nothing, not even
    /// itself, and the two zeros are equal.
    pub open spec fn ieee_eq(self, other: Float32) -> bool {
        &&& !self.spec_is_nan()
        &&& !other.spec_is_nan()
        &&& (self.bits == other.bits || (self.is_zero() && other.is_zero()))
    }

    /// The same value in double precision.
    ///
    /// Sign and class are kept. A finite value keeps its magnitude exactly
    /// (a subnormal becomes normal). A NaN becomes a quiet NaN that keeps
    /// the fraction bits in the leading positions.
    pub open spec fn widen_spec(self) -> Float64 {
        let e = self.exponent_field();
        let f = self.fraction();
        if e == 0xff {
            if f == 0 {
                Float64::compose(self.is_negative(), 0x7ff, 0)
            } else if f >= 0x40_0000 {
                Float64::compose(self.is_negative(), 0x7ff, f * 0x2000_0000)
            } else {
                Float64::compose(self.is_negative(), 0x7ff, 0x8_0000_0000_0000 + f * 0x2000_0000)
            }
        } else if e != 0 {
            Float64::compose(self.is_negative(), e + 896, f * 0x2000_0000)
        } else if f == 0 {
            Float64::compose(self.is_negative(), 0, 0)
        } else {
            let s = normalizing_shift(f);
            Float64::compose(
                self.is_negative(),
                (897 - s) as nat,
                ((f * pow2(s) - 0x80_0000) * 0x2000_0000) as nat,
            )
        }
    }

    /// The value with the given bit pattern.
    pub fn from_bits(bits: u32) -> (x: Float32)
        ensures
            x.bits == bits,
    {
        Float32 { bits }
    }

    /// The bit pattern of the value.
    pub fn to_bits(self) -> (bits: u32)
        ensures
            bits == self.bits,
    {
        self.bits
    }

    /// Whether the value is a NaN.
    #[verifier::when_used_as_spec(spec_is_nan)]
    pub fn is_nan(self) -> (nan: bool)
        ensures
            nan == self.spec_is_nan(),
    {
        (self.bits / 0x80_0000) % 0x100 == 0xff && self.bits % 0x80_0000 != 0
    }

    /// Converts to double precision. The conversion is exact.
    pub fn widen(self) -> (wide: Float64)
        ensures
            wide == self.widen_spec(),
    {
        let sign: u64 = if self.bits >= 0x8000_0000 {
            0x8000_0000_0000_0000
        } else {
            0
        };
        let e: u64 = ((self.bits / 0x80_0000) % 0x100) as u64;
        let f: u64 = (self.bits % 0x80_0000) as u64;
        if e == 0xff {
            if f == 0 {
                Float64 { bits: sign + 0x7ff * 0x10_0000_0000_0000 }
            } else if f >= 0x40_0000 {
                Float64 { bits: sign + 0x7ff * 0x10_0000_0000_0000 + f * 0x2000_0000 }
            } else {
                Float64 {
                    bits: sign + 0x7ff * 0x10_0000_0000_0000 + (0x8_0000_0000_0000 + f
                        * 0x2000_0000),
                }
            }
        } else if e != 0 {
            Float64 { bits: sign + (e + 896) * 0x10_0000_0000_0000 + f * 0x2000_0000 }
        } else if f == 0 {
            Float64 { bits: sign }
        } else {
            let mut m: u64 = f;
            let mut s: u64 = 0;
            proof {
                lemma2_to64();
            }
            while m < 0x80_0000
                invariant
                    0 < f < 0x80_0000,
                    0 < m < 0x100_0000,
                    s <= 23,
                    m == f * pow2(s as nat),
                    normalizing_shift(f as nat) == s + normalizing_shift(m as nat),
                decreases 0x100_0000 - m,
            {
                proof {
                    lemma2_to64();
                    lemma_pow2_adds(s as nat, 1);
                    assert(f * (pow2(s as nat) * 2) == (f * pow2(s as nat)) * 2)
                        by (nonlinear_arith);
                    if s == 23 {
                        assert(f * 0x80_0000 >= 0x80_0000) by (nonlinear_arith)
                            requires
                                f >= 1,
                        ;
                    }
                }
                m = m * 2;
                s = s + 1;
            }
            Float64 { bits: sign + (897 - s) * 0x10_0000_0000_0000 + (m - 0x80_0000) * 0x2000_0000 }
        }
    }
}

impl Float64 {
    /// The value with the given sign, exponent field and fraction field.
    pub open spec fn compose(negative: bool, exponent_field: nat, fraction: nat) -> Float64 {
        Float64 {
            bits: ((if negative {
                0x8000_0000_0000_0000
            } else {
                0nat
            }) + exponent_field * 0x10_0000_0000_0000 + fraction) as u64,
        }
    }

    /// The sign bit.
    pub open spec fn is_negative(self) -> bool {
        self.bits >= 0x8000_0000_0000_0000
    }

    /// The 11-bit biased exponent field.
    pub open spec fn exponent_field(self) -> nat {
        ((self.bits / 0x10_0000_0000_0000) % 0x800) as nat
    }

    /// The 52-bit fraction field.
    pub open spec fn fraction(self) -> nat {
        (self.bits % 0x10_0000_0000_0000) as nat
    }

    /// Not a number.
    pub open spec fn spec_is_nan(self) -> bool {
        self.exponent_field() == 0x7ff && self.fraction() != 0
    }

    /// Positive or negative infinity.
    pub open spec fn is_infinite(self) -> bool {
        self.exponent_field() == 0x7ff && self.fraction() == 0
    }

    /// Zero, subnormal or normal.
    pub open spec fn is_finite(self) -> bool {
        self.exponent_field() < 0x7ff
    }

    /// Positive or negative zero.
    pub open spec fn is_zero(self) -> bool {
        self.exponent_field() == 0 && self.fraction() == 0
    }

    /// For a finite value, the integer `m` with magnitude `m * 2^exponent()`.
    pub open spec fn significand(self) -> nat {
        if self.exponent_field() == 0 {
            self.fraction()
        } else {
            0x10_0000_0000_0000 + self.fraction()
        }
    }

    /// For a finite value, the power of two that scales `significand()`.
    pub open spec fn exponent(self) -> int {
        if self.exponent_field() == 0 {
            -1074
        } else {
            self.exponent_field() - 1075
        }
    }

    /// Equality as IEEE 754 defines it: a NaN equals nothing, not even
    /// itself, and the two zeros are equal.
    pub open spec fn ieee_eq(self, other: Float64) -> bool {
        &&& !self.spec_is_nan()
        &&& !other.spec_is_nan()
        &&& (self.bits == other.bits || (self.is_zero() && other.is_zero()))
    }

    /// The value with the given bit pattern.
    pub fn from_bits(bits: u64) -> (x: Float64)
        ensures
            x.bits == bits,
    {
        Float64 { bits }
    }

    /// The bit pattern of the value.
    pub fn to_bits(self) -> (bits: u64)
        ensures
            bits == self.bits,
    {
        self.bits
    }

    /// Whether the value is a NaN.
    #[verifier::when_used_as_spec(spec_is_nan)]
    pub fn is_nan(self) -> (nan: bool)
        ensures
            nan == self.spec_is_nan(),
    {
        (self.bits / 0x10_0000_0000_0000) % 0x800 == 0x7ff && self.bits % 0x10_0000_0000_0000 != 0
    }
}

impl PartialEq for Float32 {
    fn eq(&self, other: &Float32) -> (equal: bool) {
        let zero = self.bits % 0x8000_0000 == 0 && other.bits % 0x8000_0000 == 0;
        !self.is_nan() && !other.is_nan() && (self.bits == other.bits || zero)
    }
}

impl PartialEqSpecImpl for Float32 {
    open spec fn obeys_eq_spec() -> bool {
        true
    }

    open spec fn eq_spec(&self, other: &Float32) -> bool {
        self.ieee_eq(*other)
    }
}

impl PartialEq for Float64 {
    fn eq(&self, other: &Float64) -> (equal: bool) {
        let zero = self.bits % 0x8000_0000_0000_0000 == 0 && other.bits % 0x8000_0000_0000_0000
            == 0;
        !self.is_nan() && !other.is_nan() && (self.bits == other.bits || zero)
    }
}

impl PartialEqSpecImpl for Float64 {
    open spec fn obeys_eq_spec() -> bool {
        true
    }

    open spec fn eq_spec(&self, other: &Float64) -> bool {
        self.ieee_eq(*other)
    }
}

/// The doublings counted by `normalizing_shift` bring a nonzero fraction
/// field exactly into the range of a normal significand.
pub proof fn lemma_normalizing_shift(fraction: nat)
    requires
        0 < fraction < 0x80_0000,
    ensures
        0 < normalizing_shift(fraction) <= 23,
        0x80_0000 <= fraction * pow2(normalizing_shift(fraction)) < 0x100_0000,
    decreases 0x80_0000 - fraction,
{
    lemma2_to64();
    if 2 * fraction >= 0x80_0000 {
        assert(normalizing_shift(2 * fraction) == 0);
        assert(normalizing_shift(fraction) == 1);
        assert(fraction * pow2(1) == 2 * fraction);
    } else {
        lemma_normalizing_shift(2 * fraction);
        let s = normalizing_shift(2 * fraction);
        assert(normalizing_shift(fraction) == 1 + s);
        lemma_pow2_adds(1, s);
        assert(pow2(1 + s) == 2 * pow2(s));
        assert(fraction * (2 * pow2(s)) == (2 * fraction) * pow2(s)) by (nonlinear_arith);
        if s == 23 {
            assert((2 * fraction) * 0x80_0000 >= 0x100_0000) by (nonlinear_arith)
                requires
                    fraction >= 1,
            ;
        }
    }
}

/// `Float64::compose` puts each part into its own field.
pub proof fn lemma_compose_fields(negative: bool, exponent_field: nat, fraction: nat)
    requires
        exponent_field < 0x800,
        fraction < 0x10_0000_0000_0000,
    ensures
        Float64::compose(negative, exponent_field, fraction).is_negative() == negative,
        Float64::compose(negative, exponent_field, fraction).exponent_field() == exponent_field,
        Float64::compose(negative, exponent_field, fraction).fraction() == fraction,
{
}

/// The fields of the double-precision value that `widen` gives, by the class
/// of the single-precision value.
pub proof fn lemma_widen_fields(x: Float32)
    ensures
        x.widen_spec().is_negative() == x.is_negative(),
        x.is_infinite() ==> x.widen_spec().exponent_field() == 0x7ff
            && x.widen_spec().fraction() == 0,
        x.spec_is_nan() ==> x.widen_spec().exponent_field() == 0x7ff
            && x.widen_spec().fraction() >= 0x8_0000_0000_0000,
        x.is_zero() ==> x.widen_spec().exponent_field() == 0 && x.widen_spec().fraction() == 0,
        x.is_finite() && x.exponent_field() != 0 ==> x.widen_spec().exponent_field()
            == x.exponent_field() + 896 && x.widen_spec().fraction() == x.fraction() * 0x2000_0000,
        x.is_finite() && x.exponent_field() == 0 && x.fraction() != 0
            ==> x.widen_spec().exponent_field() == 897 - normalizing_shift(x.fraction())
            && x.widen_spec().fraction() == (x.fraction() * pow2(normalizing_shift(x.fraction()))
            - 0x80_0000) * 0x2000_0000,
{
    let e = x.exponent_field();
    let f = x.fraction();
    if e == 0xff {
        if f == 0 {
            lemma_compose_fields(x.is_negative(), 0x7ff, 0);
        } else if f >= 0x40_0000 {
            lemma_compose_fields(x.is_negative(), 0x7ff, f * 0x2000_0000);
        } else {
            lemma_compose_fields(x.is_negative(), 0x7ff, 0x8_0000_0000_0000 + f * 0x2000_0000);
        }
    } else if e != 0 {
        lemma_compose_fields(x.is_negative(), e + 896, f * 0x2000_0000);
    } else if f == 0 {
        lemma_compose_fields(x.is_negative(), 0, 0);
    } else {
        lemma_normalizing_shift(f);
        let s = normalizing_shift(f);
        lemma_compose_fields(
            x.is_negative(),
            (897 - s) as nat,
            ((f * pow2(s) - 0x80_0000) * 0x2000_0000) as nat,
        );
    }
}

/// Widening keeps the sign and the class of a value: a NaN stays a NaN, an
/// infinity an infinity, a zero a zero, and a finite value stays finite.
pub proof fn lemma_widen_keeps_sign_and_class(x: Float32)
    ensures
        x.widen_spec().is_negative() == x.is_negative(),
        x.widen_spec().spec_is_nan() == x.spec_is_nan(),
        x.widen_spec().is_infinite() == x.is_infinite(),
        x.widen_spec().is_zero() == x.is_zero(),
        x.widen_spec().is_finite() == x.is_finite(),
{
    lemma_widen_fields(x);
    if x.is_finite() && x.exponent_field() == 0 && x.fraction() != 0 {
        lemma_normalizing_shift(x.fraction());
    }
}

/// Widening is exact: a finite value in single precision and its widened
/// form have the same magnitude. Both magnitudes are `significand() *
/// 2^exponent()`; they are compared after scaling by `2^1074`, which makes
/// both sides integers.
pub proof fn lemma_widen_is_exact(x: Float32)
    requires
        x.is_finite(),
    ensures
        x.exponent() + 1074 >= 0,
        x.widen_spec().exponent() + 1074 >= 0,
        x.widen_spec().significand() * pow2((x.widen_spec().exponent() + 1074) as nat)
            == x.significand() * pow2((x.exponent() + 1074) as nat),
{
    lemma_widen_fields(x);
    lemma2_to64();
    let w = x.widen_spec();
    let e = x.exponent_field();
    let f = x.fraction();
    if e != 0 {
        // significand times 2^29, exponent less 29
        let k = (e + 895) as nat;
        assert(w.exponent() + 1074 == k);
        assert(x.exponent() + 1074 == k + 29);
        lemma_pow2_adds(29, k);
        assert(pow2(29 + k) == 0x2000_0000 * pow2(k));
        assert(w.significand() == x.significand() * 0x2000_0000);
        assert((x.significand() * 0x2000_0000) * pow2(k) == x.significand() * (0x2000_0000
            * pow2(k))) by (nonlinear_arith);
    } else if f != 0 {
        lemma_normalizing_shift(f);
        let s = normalizing_shift(f);
        let k = (896 - s) as nat;
        assert(w.exponent_field() == 897 - s);
        assert(w.exponent() + 1074 == k);
        assert(x.exponent() + 1074 == 925);
        assert(w.significand() == (f * pow2(s)) * 0x2000_0000);
        lemma_pow2_adds(29, k);
        assert(pow2(29 + k) == 0x2000_0000 * pow2(k));
        lemma_pow2_adds(s, 29 + k);
        assert(pow2(925) == pow2(s) * (0x2000_0000 * pow2(k)));
        assert(((f * pow2(s)) * 0x2000_0000) * pow2(k) == f * (pow2(s) * (0x2000_0000 * pow2(k))))
            by (nonlinear_arith);
    } else {
        assert(w.significand() == 0);
        assert(x.significand() == 0);
        assert(0 * pow2((w.exponent() + 1074) as nat) == 0 * pow2((x.exponent() + 1074) as nat))
            by (nonlinear_arith);
    }
}

/// Widening never makes two values equal that were not, nor the reverse:
/// two widened values compare as the single-precision values did.
pub proof fn lemma_widen_keeps_equality(x: Float32, y: Float32)
    ensures
        x.widen_spec().ieee_eq(y.widen_spec()) <==> x.ieee_eq(y),
{
    lemma_widen_keeps_sign_and_class(x);
    lemma_widen_keeps_sign_and_class(y);
    lemma_widen_fields(x);
    lemma_widen_fields(y);
    lemma_fields_determine_bits(x.widen_spec(), y.widen_spec());
    if !x.spec_is_nan() && !y.spec_is_nan() && x.widen_spec().bits == y.widen_spec().bits
        && !x.is_zero() {
        let xe = x.exponent_field();
        let ye = y.exponent_field();
        if x.is_finite() && xe == 0 {
            lemma_normalizing_shift(x.fraction());
        }
        if y.is_finite() && ye == 0 && y.fraction() != 0 {
            lemma_normalizing_shift(y.fraction());
        }
        if x.is_finite() && xe == 0 && y.is_finite() && ye == 0 {
            // two subnormals with the same shift and the same shifted fraction
            let s = normalizing_shift(x.fraction());
            assert(normalizing_shift(y.fraction()) == s);
            lemma_pow2_pos(s);
            assert(x.fraction() == y.fraction()) by (nonlinear_arith)
                requires
                    x.fraction() * pow2(s) == y.fraction() * pow2(s),
                    pow2(s) > 0,
            ;
        }
        assert(x.fraction() == y.fraction());
        assert(xe == ye);
        assert(x.bits == y.bits);
    }
}

/// A double-precision value is determined by its three fields.
pub proof fn lemma_fields_determine_bits(a: Float64, b: Float64)
    ensures
        a.is_negative() == b.is_negative() && a.exponent_field() == b.exponent_field()
            && a.fraction() == b.fraction() ==> a.bits == b.bits,
{
}

} // verus!
