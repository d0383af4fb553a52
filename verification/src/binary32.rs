//! IEEE 754 binary32 numbers, held by their bit pattern.
//!
//! The value that a pattern denotes is described exactly, as an integer
//! multiple of 2^-149 (the smallest positive subnormal). Every comparison is
//! stated over those integers and computed on the bits alone.

use vstd::prelude::*;
use vstd::arithmetic::power2::*;
use core::cmp::Ordering;

verus! {

/// The sign bit, and the number of patterns in which it is clear: 2^31.
pub const SIGN_BIT: u32 = 0x8000_0000;

/// Pattern of positive infinity; every larger magnitude pattern is a NaN.
pub const INFINITY_BITS: u32 = 0x7F80_0000;

/// The magnitude, in units of 2^-149, that the low 31 bits `m` of a pattern
/// denote: `fraction` for a subnormal, `(2^23 + fraction) * 2^(exponent - 1)`
/// otherwise. Infinity (exponent 255, fraction 0) comes out as 2^277, above
/// every finite magnitude.
pub open spec fn magnitude_of(m: nat) -> nat {
    let exponent = m / 0x80_0000;
    let fraction = m % 0x80_0000;
    if exponent == 0 {
        fraction
    } else {
        (0x80_0000 + fraction) * pow2((exponent - 1) as nat)
    }
}

/// A binary32 number as it stands on the wire.
#[derive(Clone, Copy, Debug)]
pub struct Binary32 {
    pub bits: u32,
}

impl Binary32 {
    /// Whether the sign bit is set.
    pub open spec fn negative(self) -> bool {
        self.bits >= 0x8000_0000
    }

    /// The low 31 bits: biased exponent and fraction.
    pub open spec fn magnitude_bits(self) -> nat {
        (self.bits % 0x8000_0000) as nat
    }

    /// The biased exponent, 0 to 255.
    pub open spec fn exponent(self) -> nat {
        self.magnitude_bits() / 0x80_0000
    }

    /// The 23 fraction bits.
    pub open spec fn fraction(self) -> nat {
        self.magnitude_bits() % 0x80_0000
    }

    /// Whether the pattern is not a number.
    pub open spec fn is_nan_spec(&self) -> bool {
        self.exponent() == 255 && self.fraction() != 0
    }

    /// The denoted value times 2^149. Both zeros give 0; the infinities give
    /// plus and minus 2^277. Meaningless for a NaN.
    pub open spec fn scaled(self) -> int {
        if self.negative() {
            -(magnitude_of(self.magnitude_bits()) as int)
        } else {
            magnitude_of(self.magnitude_bits()) as int
        }
    }

    /// A signed integer that orders as the denoted values do: the low 31
    /// bits, negated where the sign bit is set.
    pub open spec fn order_key(self) -> int {
        if self.negative() {
            -(self.magnitude_bits() as int)
        } else {
            self.magnitude_bits() as int
        }
    }

    /// IEEE `<=`: false as soon as either side is a NaN.
    pub open spec fn le_spec(self, other: Binary32) -> bool {
        !self.is_nan_spec() && !other.is_nan_spec() && self.scaled() <= other.scaled()
    }

    /// IEEE `==`: false as soon as either side is a NaN, true of the two zeros.
    pub open spec fn same_value(self, other: Binary32) -> bool {
        !self.is_nan_spec() && !other.is_nan_spec() && self.scaled() == other.scaled()
    }

    /// The number with the given bit pattern.
    pub open spec fn from_bits_spec(bits: u32) -> Binary32 {
        Binary32 { bits }
    }

    /// The number with the given bit pattern.
    #[verifier::when_used_as_spec(from_bits_spec)]
    pub fn from_bits(bits: u32) -> (v: Binary32)
        ensures
            v == Binary32::from_bits_spec(bits),
    {
        Binary32 { bits }
    }

    /// The bit pattern of the number.
    pub fn to_bits(&self) -> (bits: u32)
        ensures
            bits == self.bits,
    {
        self.bits
    }

    /// Whether the pattern is not a number.
    #[verifier::when_used_as_spec(is_nan_spec)]
    pub fn is_nan(&self) -> (r: bool)
        ensures
            r == self.is_nan_spec(),
    {
        self.bits % SIGN_BIT > INFINITY_BITS
    }

    fn key(&self) -> (k: i64)
        ensures
            k == self.order_key(),
    {
        let m: i64 = (self.bits % SIGN_BIT) as i64;
        if self.bits >= SIGN_BIT {
            -m
        } else {
            m
        }
    }

    /// IEEE `<=`, decided on the bits.
    pub fn le(&self, other: &Binary32) -> (r: bool)
        ensures
            r == self.le_spec(*other),
    {
        if self.is_nan() || other.is_nan() {
            return false;
        }
        proof {
            lemma_order_key(*self, *other);
        }
        self.key() <= other.key()
    }
}

impl PartialEq for Binary32 {
    /// IEEE equality: the two zeros are equal, a NaN equals nothing.
    fn eq(&self, other: &Binary32) -> (r: bool) {
        if self.is_nan() || other.is_nan() {
            return false;
        }
        proof {
            lemma_order_key(*self, *other);
        }
        self.key() == other.key()
    }
}

impl vstd::std_specs::cmp::PartialEqSpecImpl for Binary32 {
    open spec fn obeys_eq_spec() -> bool {
        true
    }

    open spec fn eq_spec(&self, other: &Binary32) -> bool {
        self.same_value(*other)
    }
}

impl PartialOrd for Binary32 {
    /// IEEE comparison: the two zeros are equal, a NaN is unordered.
    fn partial_cmp(&self, other: &Binary32) -> (r: Option<Ordering>) {
        if self.is_nan() || other.is_nan() {
            return None;
        }
        proof {
            lemma_order_key(*self, *other);
        }
        let a = self.key();
        let b = other.key();
        if a < b {
            Some(Ordering::Less)
        } else if a == b {
            Some(Ordering::Equal)
        } else {
            Some(Ordering::Greater)
        }
    }
}

impl vstd::std_specs::cmp::PartialOrdSpecImpl for Binary32 {
    open spec fn obeys_partial_cmp_spec() -> bool {
        true
    }

    open spec fn partial_cmp_spec(&self, other: &Binary32) -> Option<Ordering> {
        if self.is_nan_spec() || other.is_nan_spec() {
            None
        } else if self.scaled() < other.scaled() {
            Some(Ordering::Less)
        } else if self.scaled() == other.scaled() {
            Some(Ordering::Equal)
        } else {
            Some(Ordering::Greater)
        }
    }
}

impl Default for Binary32 {
    /// Positive zero.
    fn default() -> (v: Binary32)
        ensures
            v.bits == 0,
    {
        Binary32 { bits: 0 }
    }
}

/// Whether `value` is a number between `low` and `high`, both whole numbers
/// and both included. The comparison is exact: `value` is held against the
/// bounds in units of 2^-149, in which every binary32 number is whole.
pub open spec fn between(value: Binary32, low: int, high: int) -> bool {
    !value.is_nan_spec() && low * pow2(149) <= value.scaled() <= high * pow2(149)
}

/// Between magnitudes, a larger pattern denotes a larger number.
pub proof fn lemma_magnitude_increases(a: nat, b: nat)
    requires
        a < b,
    ensures
        magnitude_of(a) < magnitude_of(b),
{
    let (ea, fa) = (a / 0x80_0000, a % 0x80_0000);
    let (eb, fb) = (b / 0x80_0000, b % 0x80_0000);
    assert(ea <= eb);
    if ea == eb {
        if ea > 0 {
            let p = pow2((ea - 1) as nat);
            lemma_pow2_pos((ea - 1) as nat);
            assert((0x80_0000 + fa) * p < (0x80_0000 + fb) * p) by (nonlinear_arith)
                requires
                    fa < fb,
                    p > 0,
            ;
        }
    } else {
        let q = pow2((eb - 1) as nat);
        lemma_pow2_pos((eb - 1) as nat);
        assert(0x80_0000 * q <= (0x80_0000 + fb) * q) by (nonlinear_arith)
            requires
                fb >= 0,
                q > 0,
        ;
        if ea == 0 {
            assert(0x80_0000 * 1 <= 0x80_0000 * q) by (nonlinear_arith)
                requires
                    q >= 1,
            ;
        } else {
            let p = pow2((ea - 1) as nat);
            lemma_pow2_pos((ea - 1) as nat);
            lemma_pow2_unfold(ea);
            assert(pow2(ea) == 2 * p);
            if ea < eb - 1 {
                lemma_pow2_strictly_increases(ea, (eb - 1) as nat);
            }
            assert(pow2(ea) <= q);
            assert((0x80_0000 + fa) * p < 0x80_0000 * q) by (nonlinear_arith)
                requires
                    fa < 0x80_0000,
                    p > 0,
                    2 * p <= q,
            ;
        }
    }
}

/// Two patterns compare by their keys as the numbers they denote compare.
pub proof fn lemma_order_key(a: Binary32, b: Binary32)
    ensures
        a.order_key() <= b.order_key() <==> a.scaled() <= b.scaled(),
        a.order_key() == b.order_key() <==> a.scaled() == b.scaled(),
{
    let ma = a.magnitude_bits();
    let mb = b.magnitude_bits();
    assert(magnitude_of(0) == 0);
    if ma < mb {
        lemma_magnitude_increases(ma, mb);
    }
    if mb < ma {
        lemma_magnitude_increases(mb, ma);
    }
    if 0 < ma {
        lemma_magnitude_increases(0, ma);
    }
    if 0 < mb {
        lemma_magnitude_increases(0, mb);
    }
}

} // verus!
