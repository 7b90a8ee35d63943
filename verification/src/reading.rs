//! Single-precision measurements, held by their IEEE 754 bit pattern.
//!
//! A weather provider reports temperatures, speeds and distances as binary
//! fractions. The rules of this library only ever ask how such a measurement
//! stands against a whole number, so a measurement is kept as the 32 bits it
//! arrived in, and its meaning is given by [`Reading::scaled`]: the number it
//! denotes, multiplied by 2^149, which is an integer for every bit pattern.

use vstd::arithmetic::power2::{
    lemma2_to64, lemma_pow2_adds, lemma_pow2_pos, lemma_pow2_strictly_increases,
    lemma_pow2_unfold, pow2,
};
use vstd::prelude::*;

verus! {

/// The bit that carries the sign; the other 31 bits are the magnitude.
pub const SIGN_BIT: u32 = 0x8000_0000;

/// The magnitude of an infinity. Every larger magnitude is "not a number".
pub const INFINITY_BITS: u32 = 0x7f80_0000;

/// Two to the number of fraction bits.
pub const FRACTION_SPAN: u32 = 0x80_0000;

/// The power of two by which [`Reading::scaled`] multiplies a value.
pub open spec fn unit() -> int {
    pow2(149) as int
}

/// The absolute value that the 31 magnitude bits `m` denote, in units of
/// 2^-149. With a zero exponent field the fraction counts such units itself;
/// otherwise the fraction has an implicit leading one, and the value doubles
/// with each step of the exponent.
pub open spec fn scaled_of_magnitude(m: int) -> int {
    if m / (FRACTION_SPAN as int) == 0 {
        m % (FRACTION_SPAN as int)
    } else {
        (FRACTION_SPAN + m % (FRACTION_SPAN as int)) * pow2((m / (FRACTION_SPAN as int) - 1) as nat)
    }
}

/// A measurement in single precision, by its bits.
#[derive(Clone, Copy, Debug, PartialEq, Eq, Structural)]
pub struct Reading {
    pub bits: u32,
}

impl Reading {
    /// The 31 bits below the sign.
    pub open spec fn magnitude(self) -> int {
        self.bits as int % (SIGN_BIT as int)
    }

    pub open spec fn is_negative(self) -> bool {
        self.bits >= SIGN_BIT
    }

    /// The bit pattern denotes no number.
    pub open spec fn is_nan(self) -> bool {
        self.magnitude() > INFINITY_BITS
    }

    /// The denoted number times 2^149. An infinity counts as 2^277, which
    /// lies beyond every finite reading.
    pub open spec fn scaled(self) -> int {
        if self.is_negative() {
            -scaled_of_magnitude(self.magnitude())
        } else {
            scaled_of_magnitude(self.magnitude())
        }
    }

    /// The magnitude with the sign applied: an integer that orders readings
    /// as their values do.
    pub open spec fn rank(self) -> int {
        if self.is_negative() {
            -self.magnitude()
        } else {
            self.magnitude()
        }
    }

    /// The reading is a number greater than `whole`.
    pub open spec fn above(self, whole: int) -> bool {
        !self.is_nan() && self.scaled() > whole * unit()
    }

    /// The reading is a number less than `whole`.
    pub open spec fn below(self, whole: int) -> bool {
        !self.is_nan() && self.scaled() < whole * unit()
    }

    /// The reading is a number and at most `whole`.
    pub open spec fn at_most(self, whole: int) -> bool {
        !self.is_nan() && self.scaled() <= whole * unit()
    }

    /// The reading is a number and at least `whole`.
    pub open spec fn at_least(self, whole: int) -> bool {
        !self.is_nan() && self.scaled() >= whole * unit()
    }

    /// The reading is the number `whole`.
    pub open spec fn is_whole(self, whole: int) -> bool {
        !self.is_nan() && self.scaled() == whole * unit()
    }

    pub fn from_bits(bits: u32) -> (r: Reading)
        ensures
            r.bits == bits,
    {
        Reading { bits }
    }

    pub fn to_bits(&self) -> (bits: u32)
        ensures
            bits == self.bits,
    {
        self.bits
    }

    /// Whether the bits denote no number.
    pub fn not_a_number(&self) -> (r: bool)
        ensures
            r == self.is_nan(),
    {
        self.bits % SIGN_BIT > INFINITY_BITS
    }

    /// The reading that denotes the whole number `whole` exactly.
    pub fn from_whole(whole: u8) -> (r: Reading)
        ensures
            r.is_whole(whole as int),
            !r.is_negative(),
    {
        if whole == 0 {
            return Reading { bits: 0 };
        }
        let target: u32 = whole as u32;
        // span = 2^p is the largest power of two up to `whole`; step = 2^(23-p).
        let mut span: u32 = 1;
        let mut step: u32 = FRACTION_SPAN;
        let mut exponent: u32 = 127;
        proof {
            lemma2_to64();
        }
        while span * 2 <= target
            invariant
                target == whole,
                1 <= span <= target,
                127 <= exponent <= 134,
                span == pow2((exponent - 127) as nat),
                step == pow2((150 - exponent) as nat),
                span * step == FRACTION_SPAN,
            decreases target - span,
        {
            proof {
                lemma2_to64();
                lemma_pow2_unfold((exponent + 1 - 127) as nat);
                lemma_pow2_unfold((150 - exponent) as nat);
                assert(exponent < 134) by {
                    if exponent == 134 {
                        assert(pow2(7) == 128);
                    }
                }
                assert((span * 2) * (step / 2) == span * step) by (nonlinear_arith)
                    requires
                        step % 2 == 0,
                ;
            }
            span = span * 2;
            step = step / 2;
            exponent = exponent + 1;
        }
        let rest: u32 = target - span;
        assert(rest * step < FRACTION_SPAN && rest * step >= 0) by (nonlinear_arith)
            requires
                0 <= rest < span,
                span * step == FRACTION_SPAN,
                step > 0,
        ;
        let fraction: u32 = rest * step;
        let bits: u32 = exponent * FRACTION_SPAN + fraction;
        let r = Reading { bits };
        proof {
            assert(r.magnitude() == bits);
            assert(bits as int / (FRACTION_SPAN as int) == exponent);
            assert(bits as int % (FRACTION_SPAN as int) == fraction);
            let low = pow2((exponent - 1) as nat) as int;
            lemma_pow2_adds((150 - exponent) as nat, (exponent - 1) as nat);
            assert(step * low == unit());
            assert((FRACTION_SPAN + fraction) * low == whole * (step * low)) by (nonlinear_arith)
                requires
                    fraction == (whole - span) * step,
                    span * step == FRACTION_SPAN,
            ;
        }
        r
    }

    /// The rank as a machine integer.
    fn signed_rank(&self) -> (k: i64)
        ensures
            k == self.rank(),
    {
        let magnitude: u32 = self.bits % SIGN_BIT;
        if self.bits >= SIGN_BIT {
            -(magnitude as i64)
        } else {
            magnitude as i64
        }
    }

    /// Is the reading a number greater than `limit`?
    pub fn exceeds(&self, limit: u8) -> (r: bool)
        ensures
            r == self.above(limit as int),
    {
        if self.not_a_number() {
            return false;
        }
        let bound = Reading::from_whole(limit);
        proof {
            lemma_rank_orders_values(bound, *self);
        }
        self.signed_rank() > bound.signed_rank()
    }

    /// Is the reading a number less than `limit`?
    pub fn falls_below(&self, limit: u8) -> (r: bool)
        ensures
            r == self.below(limit as int),
    {
        if self.not_a_number() {
            return false;
        }
        let bound = Reading::from_whole(limit);
        proof {
            lemma_rank_orders_values(*self, bound);
        }
        self.signed_rank() < bound.signed_rank()
    }
}

/// A larger magnitude denotes a larger absolute value.
pub proof fn lemma_magnitude_orders_values(a: int, b: int)
    requires
        0 <= a < b,
    ensures
        0 <= scaled_of_magnitude(a) < scaled_of_magnitude(b),
{
    let span = FRACTION_SPAN as int;
    let (ea, fa) = (a / span, a % span);
    let (eb, fb) = (b / span, b % span);
    assert(ea <= eb);
    assert(ea == eb ==> fa < fb);
    lemma2_to64();
    if ea == eb {
        if ea != 0 {
            let p = pow2((ea - 1) as nat) as int;
            lemma_pow2_pos((ea - 1) as nat);
            assert(0 <= (span + fa) * p < (span + fb) * p) by (nonlinear_arith)
                requires
                    0 <= fa < fb,
                    span > 0,
                    p > 0,
            ;
        }
    } else {
        let q = pow2(ea as nat) as int;
        let r = pow2((eb - 1) as nat) as int;
        lemma_pow2_pos(ea as nat);
        if ea == 0 {
            assert(scaled_of_magnitude(a) < span * q);
        } else {
            let p = pow2((ea - 1) as nat) as int;
            lemma_pow2_unfold(ea as nat);
            lemma_pow2_pos((ea - 1) as nat);
            assert(0 <= (span + fa) * p < span * (2 * p)) by (nonlinear_arith)
                requires
                    0 <= fa < span,
                    p > 0,
            ;
        }
        if ea < eb - 1 {
            lemma_pow2_strictly_increases(ea as nat, (eb - 1) as nat);
        }
        assert(span * q <= (span + fb) * r) by (nonlinear_arith)
            requires
                0 <= fb,
                span > 0,
                0 < q <= r,
        ;
    }
}

/// Ordering two readings by rank orders them by the numbers they denote.
pub proof fn lemma_rank_orders_values(a: Reading, b: Reading)
    ensures
        a.rank() < b.rank() <==> a.scaled() < b.scaled(),
        a.rank() == b.rank() <==> a.scaled() == b.scaled(),
{
    let (ma, mb) = (a.magnitude(), b.magnitude());
    if ma < mb {
        lemma_magnitude_orders_values(ma, mb);
    }
    if mb < ma {
        lemma_magnitude_orders_values(mb, ma);
    }
    if 0 < ma {
        lemma_magnitude_orders_values(0, ma);
    }
    if 0 < mb {
        lemma_magnitude_orders_values(0, mb);
    }
    assert(scaled_of_magnitude(0) == 0);
}

/// A whole number has one reading without a sign: two such readings of the
/// same number have the same bits.
pub proof fn lemma_whole_reading_is_unique(a: Reading, b: Reading, whole: int)
    requires
        a.is_whole(whole),
        b.is_whole(whole),
        !a.is_negative(),
        !b.is_negative(),
    ensures
        a == b,
{
    lemma_rank_orders_values(a, b);
    assert(a.bits == a.magnitude());
    assert(b.bits == b.magnitude());
}

} // verus!
