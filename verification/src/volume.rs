//! Validated linear volume, held as the bit pattern of a single-precision
//! number.
//!
//! A bit pattern is read as the exact number it encodes, in units of two to
//! the power of minus 149, the smallest positive single-precision step.

use vstd::arithmetic::power2::{lemma_pow2_adds, lemma_pow2_pos, lemma_pow2_strictly_increases, pow2};
use vstd::prelude::*;

use crate::ids::ModelError;

verus! {

/// Bit pattern of `1.0`.
pub const ONE_BITS: u32 = 0x3F80_0000;

/// Bit pattern of `0.25`.
pub const QUARTER_BITS: u32 = 0x3E80_0000;

/// Bit pattern of `-0.0`.
pub const NEGATIVE_ZERO_BITS: u32 = 0x8000_0000;

/// Whether a bit pattern encodes a finite number.
pub open spec fn f32_finite(bits: u32) -> bool {
    (bits % 0x8000_0000) / 0x80_0000 < 255
}

/// Whether a bit pattern has its sign bit set.
pub open spec fn f32_negative(bits: u32) -> bool {
    bits >= 0x8000_0000
}

/// The absolute value encoded by a finite bit pattern, in units of the
/// smallest positive step.
pub open spec fn f32_units(bits: u32) -> nat {
    let magnitude = bits as nat % 0x8000_0000;
    let exponent = magnitude / 0x80_0000;
    let fraction = magnitude % 0x80_0000;
    if exponent == 0 {
        fraction
    } else {
        (0x80_0000 + fraction) * pow2((exponent - 1) as nat)
    }
}

/// Whether a bit pattern encodes a finite number within `0.0..=1.0`.
pub open spec fn f32_within_unit(bits: u32) -> bool {
    &&& f32_finite(bits)
    &&& f32_negative(bits) ==> f32_units(bits) == 0
    &&& f32_units(bits) <= pow2(149)
}

/// Ordering two magnitudes by their bits is ordering the numbers they encode.
pub proof fn law_bit_order_is_value_order(a: u32, b: u32)
    requires
        a < b,
        !f32_negative(b),
    ensures
        f32_units(a) < f32_units(b),
{
    let ea = a as nat / 0x80_0000;
    let eb = b as nat / 0x80_0000;
    let fa = a as nat % 0x80_0000;
    let fb = b as nat % 0x80_0000;
    assert(a as nat % 0x8000_0000 == a as nat);
    assert(b as nat % 0x8000_0000 == b as nat);
    if ea == eb {
        if ea > 0 {
            lemma_pow2_pos((ea - 1) as nat);
            let p = pow2((ea - 1) as nat);
            assert((0x80_0000 + fa) * p < (0x80_0000 + fb) * p) by (nonlinear_arith)
                requires
                    fa < fb,
                    p > 0,
            ;
        }
    } else {
        assert(ea < eb);
        lemma_pow2_pos((eb - 1) as nat);
        let q = pow2((eb - 1) as nat);
        assert((0x80_0000 + fb) * q >= 0x80_0000 * q) by (nonlinear_arith)
            requires
                fb >= 0,
                q > 0,
        ;
        if ea > 0 {
            lemma_pow2_pos((ea - 1) as nat);
            let p = pow2((ea - 1) as nat);
            lemma_pow2_adds(1, (ea - 1) as nat);
            assert(pow2(1) == 2) by {
                vstd::arithmetic::power2::lemma2_to64();
            }
            assert(pow2(ea) == 2 * p);
            if ea < eb - 1 {
                lemma_pow2_strictly_increases(ea, (eb - 1) as nat);
            }
            assert(2 * p <= q);
            assert((0x80_0000 + fa) * p < 0x80_0000 * q) by (nonlinear_arith)
                requires
                    fa < 0x80_0000,
                    2 * p <= q,
                    p > 0,
            ;
        }
    }
}

proof fn lemma_one_is_unit()
    ensures
        f32_units(ONE_BITS) == pow2(149),
{
    assert(ONE_BITS as nat / 0x80_0000 == 127);
    assert(ONE_BITS as nat % 0x80_0000 == 0);
    lemma_pow2_adds(23, 126);
    vstd::arithmetic::power2::lemma2_to64();
    assert(pow2(23) == 0x80_0000);
}

pub(crate) proof fn lemma_unit_range(bits: u32)
    ensures
        f32_within_unit(bits) <==> bits <= ONE_BITS || bits == NEGATIVE_ZERO_BITS,
{
    lemma_one_is_unit();
    if bits < 0x8000_0000 {
        if bits < ONE_BITS {
            law_bit_order_is_value_order(bits, ONE_BITS);
        } else if bits > ONE_BITS {
            law_bit_order_is_value_order(ONE_BITS, bits);
        }
    } else {
        let low = (bits - 0x8000_0000) as u32;
        assert(bits as nat % 0x8000_0000 == low);
        assert(low as nat % 0x8000_0000 == low);
        assert(f32_units(bits) == f32_units(low));
        if low > 0 {
            law_bit_order_is_value_order(0, low);
        } else {
            lemma_pow2_pos(149);
        }
    }
}

/// A validated linear volume in `0.0..=1.0`.
///
/// NaN, infinity, and out-of-range values are rejected at construction.
#[derive(Clone, Copy, Debug)]
pub struct Volume {
    bits: u32,
}

/// Full scale.
pub closed spec fn unity_volume() -> Volume {
    Volume { bits: ONE_BITS }
}

/// Full scale is the number one.
pub proof fn law_full_scale_is_one()
    ensures
        unity_volume().bits() == 0x3F80_0000,
{
}

impl Volume {
    /// The single-precision bit pattern.
    pub closed spec fn bits(self) -> u32 {
        self.bits
    }

    /// The volume in units of the smallest positive step; `1.0` is two to the
    /// power of 149.
    pub open spec fn units(self) -> nat {
        f32_units(self.bits())
    }

    #[verifier::type_invariant]
    spec fn inv(self) -> bool {
        self.bits <= ONE_BITS || self.bits == NEGATIVE_ZERO_BITS
    }

    /// Application default master volume.
    pub fn default_master() -> (r: Self)
        ensures
            r.bits() == QUARTER_BITS,
    {
        Volume { bits: QUARTER_BITS }
    }

    /// Full scale; also the default per-receiver level.
    pub fn unity() -> (r: Self)
        ensures
            r.bits() == ONE_BITS,
            r == unity_volume(),
    {
        Volume { bits: ONE_BITS }
    }

    /// Silence.
    pub fn muted() -> (r: Self)
        ensures
            r.bits() == 0,
    {
        Volume { bits: 0 }
    }

    /// Validates the number encoded by `bits` as a finite volume within
    /// `0.0..=1.0`.
    pub fn new(bits: u32) -> (r: Result<Self, ModelError>)
        ensures
            r is Ok <==> f32_within_unit(bits),
            r matches Ok(v) ==> v.bits() == bits,
            r matches Err(e) ==> e == ModelError::InvalidVolume,
    {
        proof { lemma_unit_range(bits); }
        if bits <= ONE_BITS || bits == NEGATIVE_ZERO_BITS {
            Ok(Volume { bits })
        } else {
            Err(ModelError::InvalidVolume)
        }
    }

    /// Returns the bit pattern of the raw linear value.
    pub fn get(self) -> (r: u32)
        ensures
            r == self.bits(),
            f32_within_unit(r),
    {
        proof {
            use_type_invariant(&self);
            lemma_unit_range(self.bits);
        }
        self.bits
    }

    /// Whether this is exactly silence.
    pub fn is_silent(self) -> (r: bool)
        ensures
            r <==> self.units() == 0,
    {
        proof {
            use_type_invariant(&self);
            if self.bits > 0 && self.bits <= ONE_BITS {
                law_bit_order_is_value_order(0, self.bits);
            }
        }
        self.bits == 0 || self.bits == NEGATIVE_ZERO_BITS
    }

    /// Whether this volume is no louder than the nonnegative number encoded
    /// by `limit`.
    pub fn at_most(self, limit: u32) -> (r: bool)
        requires
            !f32_negative(limit),
        ensures
            r <==> self.units() <= f32_units(limit),
    {
        proof {
            use_type_invariant(&self);
            if self.bits == NEGATIVE_ZERO_BITS {
                assert(self.units() == 0);
            } else if self.bits < limit {
                law_bit_order_is_value_order(self.bits, limit);
            } else if limit < self.bits {
                law_bit_order_is_value_order(limit, self.bits);
            }
        }
        self.bits == NEGATIVE_ZERO_BITS || self.bits <= limit
    }
}

impl Default for Volume {
    fn default() -> (r: Self)
        ensures
            r.bits() == QUARTER_BITS,
    {
        Volume::default_master()
    }
}

impl PartialEq for Volume {
    fn eq(&self, other: &Self) -> (r: bool) {
        proof {
            use_type_invariant(self);
            use_type_invariant(other);
            if self.bits < other.bits && other.bits <= ONE_BITS {
                law_bit_order_is_value_order(self.bits, other.bits);
            }
            if other.bits < self.bits && self.bits <= ONE_BITS {
                law_bit_order_is_value_order(other.bits, self.bits);
            }
            assert(f32_units(NEGATIVE_ZERO_BITS) == 0);
            assert(f32_units(0) == 0);
            if 0 < self.bits && self.bits <= ONE_BITS {
                law_bit_order_is_value_order(0, self.bits);
            }
            if 0 < other.bits && other.bits <= ONE_BITS {
                law_bit_order_is_value_order(0, other.bits);
            }
        }
        self.bits == other.bits || (self.is_silent() && other.is_silent())
    }
}

impl vstd::std_specs::cmp::PartialEqSpecImpl for Volume {
    open spec fn obeys_eq_spec() -> bool {
        true
    }

    open spec fn eq_spec(&self, other: &Self) -> bool {
        self.units() == other.units()
    }
}

} // verus!
