//! Numbers of reduced precision, as bits.
//!
//! A 32-bit number has a sign bit, eight bits of exponent and 23 bits of
//! fraction. The half-precision form keeps the sign, five bits of
//! exponent and the upper ten bits of the fraction; the brain form keeps
//! the upper sixteen bits as they are.

use vstd::prelude::*;

verus! {

/// A number of half precision.
#[derive(Debug, Clone, Copy)]
pub struct Float16(u16);

/// A number in the brain floating-point form.
#[derive(Debug, Clone, Copy)]
pub struct BFloat16(u16);

/// The sorts of precision.
#[derive(Debug, Clone, Copy, PartialEq, Eq, Structural)]
pub enum PrecisionType {
    /// 32 bits.
    Float32,
    /// Half precision.
    Float16,
    /// The brain form.
    BFloat16,
}

/// The sign bit of a 32-bit number.
pub open spec fn sign_of(bits: u32) -> u32 {
    (bits >> 31) & 1
}

/// The exponent field of a 32-bit number.
pub open spec fn exponent_of(bits: u32) -> u32 {
    (bits >> 23) & 0xFF
}

/// The fraction field of a 32-bit number.
pub open spec fn fraction_of(bits: u32) -> u32 {
    bits & 0x7FFFFF
}

/// The half-precision bits of a 32-bit number: infinities stay
/// infinities, every other non-number becomes one non-number, a number too
/// small for the form becomes a zero of its sign, a number too large an
/// infinity of its sign, and every other number keeps its sign, its
/// exponent moved to the smaller bias, and the upper ten bits of its
/// fraction.
pub open spec fn half_bits(bits: u32) -> u16 {
    let sign = sign_of(bits);
    let exp = exponent_of(bits);
    let frac = fraction_of(bits);
    if exp == 0xFF {
        if frac == 0 {
            ((sign << 15) | 0x7C00) as u16
        } else {
            0x7E00u16
        }
    } else if exp <= 112 {
        (sign << 15) as u16
    } else if exp >= 143 {
        ((sign << 15) | 0x7C00) as u16
    } else {
        ((sign << 15) | (((exp - 112) as u32) << 10) | (frac >> 13)) as u16
    }
}

/// The fields fit their widths, and the half-precision bits fit 16 bits.
proof fn fields_fit(bits: u32)
    by (bit_vector)
    ensures
        (bits >> 31) & 1 <= 1,
        (bits >> 23) & 0xFF <= 0xFF,
        (((bits >> 31) & 1) << 15) <= 0x8000,
        ((((bits >> 31) & 1) << 15) | 0x7C00) <= 0xFFFF,
        (bits & 0x7FFFFF) >> 13 <= 0x3FF,
        bits & 0x7FFFFF <= 0x7FFFFF,
{
}

/// The bits of a normal half-precision number fit 16 bits.
proof fn normal_fits(sign: u32, exp: u32, frac: u32)
    by (bit_vector)
    requires
        sign <= 1,
        exp <= 30,
        frac <= 0x7FFFFF,
    ensures
        ((sign << 15) | (exp << 10) | (frac >> 13)) <= 0xFFFF,
{
}

impl Float16 {
    /// The bits.
    pub closed spec fn spec_bits(self) -> u16 {
        self.0
    }

    /// The half-precision form of the 32-bit number with these bits.
    pub fn from_f32_bits(bits: u32) -> (h: Self)
        ensures
            h.spec_bits() == half_bits(bits),
    {
        let sign: u32 = (bits >> 31) & 1;
        let exp: u32 = (bits >> 23) & 0xFF;
        let frac: u32 = bits & 0x7FFFFF;
        proof {
            fields_fit(bits);
        }
        if exp == 0xFF {
            if frac == 0 {
                return Float16(((sign << 15) | 0x7C00) as u16);
            } else {
                return Float16(0x7E00);
            }
        }
        if exp <= 112 {
            Float16((sign << 15) as u16)
        } else if exp >= 143 {
            Float16(((sign << 15) | 0x7C00) as u16)
        } else {
            let new_exp: u32 = exp - 112;
            proof {
                normal_fits(sign, new_exp, frac);
            }
            Float16(((sign << 15) | (new_exp << 10) | (frac >> 13)) as u16)
        }
    }

    /// The bits of the 32-bit number that the half-precision number
    /// stands for.
    pub fn to_f32_bits(self) -> (bits: u32)
        ensures
            bits == single_bits(self.spec_bits()),
    {
        let h: u32 = self.0 as u32;
        let sign: u32 = (h >> 15) & 1;
        let exp: u32 = (h >> 10) & 0x1F;
        let frac: u32 = h & 0x3FF;
        proof {
            half_fields_fit(self.0);
        }
        if exp == 0 {
            if frac == 0 {
                sign << 31
            } else {
                let mut lead: u32 = 9;
                while lead > 0 && (frac >> lead) & 1 == 0
                    invariant
                        lead <= 9,
                        frac <= 0x3FF,
                        frac > 0,
                        forall|k: u32| lead < k <= 9 ==> #[trigger] (frac >> k) & 1 == 0,
                    decreases lead,
                {
                    lead = lead - 1;
                }
                proof {
                    leading_bit_is_unique(frac, lead);
                    shifted_fits(sign, frac, lead);
                }
                (sign << 31) | ((103 + lead) << 23) | ((frac << (23 - lead)) & 0x7FFFFF)
            }
        } else if exp == 31 {
            if frac == 0 {
                (sign << 31) | 0x7F800000
            } else {
                0x7FC00000
            }
        } else {
            proof {
                normal_single_fits(sign, exp, frac);
            }
            (sign << 31) | ((exp + 112) << 23) | (frac << 13)
        }
    }

    /// The bits.
    pub fn to_bits(self) -> (b: u16)
        ensures
            b == self.spec_bits(),
    {
        self.0
    }

    /// The number with these bits.
    pub fn from_bits(bits: u16) -> (h: Self)
        ensures
            h.spec_bits() == bits,
    {
        Float16(bits)
    }
}

/// The place of the highest set bit of a fraction of ten bits that is
/// not zero.
pub open spec fn leading_bit(frac: u32) -> u32 {
    choose|p: u32| p <= 9 && (frac >> p) & 1 == 1 && forall|k: u32| p < k <= 9 ==> #[trigger] (frac >> k) & 1 == 0
}

/// The bits of the 32-bit number that a half-precision number stands
/// for: zeros and infinities keep their sign, every non-number becomes
/// one non-number, a number below the normal range is written with the
/// exponent that its highest set bit calls for, and a normal number keeps
/// its sign, its exponent moved to the larger bias, and its fraction with
/// thirteen zeros behind it.
pub open spec fn single_bits(half: u16) -> u32 {
    let h = half as u32;
    let sign = (h >> 15) & 1;
    let exp = (h >> 10) & 0x1F;
    let frac = h & 0x3FF;
    if exp == 0 {
        if frac == 0 {
            sign << 31
        } else {
            let lead = leading_bit(frac);
            (sign << 31) | (((103 + lead) as u32) << 23) | ((frac << ((23 - lead) as u32)) & 0x7FFFFF)
        }
    } else if exp == 31 {
        if frac == 0 {
            (sign << 31) | 0x7F800000
        } else {
            0x7FC00000u32
        }
    } else {
        (sign << 31) | (((exp + 112) as u32) << 23) | (frac << 13)
    }
}

/// The fields of a half-precision number fit their widths.
proof fn half_fields_fit(half: u16)
    by (bit_vector)
    ensures
        ((half as u32) >> 15) & 1 <= 1,
        ((half as u32) >> 10) & 0x1F <= 0x1F,
        (half as u32) & 0x3FF <= 0x3FF,
        (((half as u32) >> 15) & 1) << 31 <= 0x8000_0000,
        ((((half as u32) >> 15) & 1) << 31) | 0x7F800000 <= 0xFFFF_FFFF,
{
}

/// A fraction that is not zero has a highest set bit, and only one.
proof fn leading_bit_is_unique(frac: u32, lead: u32)
    requires
        0 < frac <= 0x3FF,
        lead <= 9,
        forall|k: u32| lead < k <= 9 ==> #[trigger] (frac >> k) & 1 == 0,
        lead == 0 || (frac >> lead) & 1 != 0,
    ensures
        (frac >> lead) & 1 == 1,
        leading_bit(frac) == lead,
{
    assert((frac >> lead) & 1 == 0 || (frac >> lead) & 1 == 1) by (bit_vector);
    if lead == 0 && (frac >> 0u32) & 1 == 0 {
        assert((frac >> 1u32) & 1 == 0);
        assert((frac >> 2u32) & 1 == 0);
        assert((frac >> 3u32) & 1 == 0);
        assert((frac >> 4u32) & 1 == 0);
        assert((frac >> 5u32) & 1 == 0);
        assert((frac >> 6u32) & 1 == 0);
        assert((frac >> 7u32) & 1 == 0);
        assert((frac >> 8u32) & 1 == 0);
        assert((frac >> 9u32) & 1 == 0);
        assert(false) by (bit_vector)
            requires
                0 < frac <= 0x3FF,
                (frac >> 0u32) & 1 == 0,
                (frac >> 1u32) & 1 == 0,
                (frac >> 2u32) & 1 == 0,
                (frac >> 3u32) & 1 == 0,
                (frac >> 4u32) & 1 == 0,
                (frac >> 5u32) & 1 == 0,
                (frac >> 6u32) & 1 == 0,
                (frac >> 7u32) & 1 == 0,
                (frac >> 8u32) & 1 == 0,
                (frac >> 9u32) & 1 == 0,
        ;
    }
    let p = leading_bit(frac);
    assert(p <= 9 && (frac >> p) & 1 == 1 && forall|k: u32| p < k <= 9 ==> #[trigger] (frac >> k) & 1 == 0);
    if p < lead {
        assert((frac >> lead) & 1 == 0);
    }
    if lead < p {
        assert((frac >> p) & 1 == 0);
    }
}

/// The bits of a number below the normal range fit 32 bits.
proof fn shifted_fits(sign: u32, frac: u32, lead: u32)
    by (bit_vector)
    requires
        sign <= 1,
        frac <= 0x3FF,
        lead <= 9,
    ensures
        103 + lead <= 112,
        23 - lead <= 23,
        (sign << 31) | (((103 + lead) as u32) << 23) | ((frac << ((23 - lead) as u32)) & 0x7FFFFF) <= 0xFFFF_FFFF,
{
}

/// The bits of a normal number fit 32 bits.
proof fn normal_single_fits(sign: u32, exp: u32, frac: u32)
    by (bit_vector)
    requires
        sign <= 1,
        exp <= 30,
        frac <= 0x3FF,
    ensures
        (sign << 31) | (((exp + 112) as u32) << 23) | (frac << 13) <= 0xFFFF_FFFF,
{
}

impl Default for Float16 {
    fn default() -> (h: Float16)
        ensures
            h.spec_bits() == 0,
    {
        Float16(0)
    }
}

/// The upper sixteen bits of a 32-bit number.
pub open spec fn upper_bits(bits: u32) -> u16 {
    (bits >> 16) as u16
}

/// Sixteen bits as the upper bits of a 32-bit number.
pub open spec fn widened(bits: u16) -> u32 {
    (bits as u32) << 16
}

impl BFloat16 {
    /// The bits.
    pub closed spec fn spec_bits(self) -> u16 {
        self.0
    }

    /// The brain form of the 32-bit number with these bits: its upper
    /// sixteen bits.
    pub fn from_f32_bits(bits: u32) -> (b: Self)
        ensures
            b.spec_bits() == upper_bits(bits),
    {
        assert(bits >> 16 <= 0xFFFF) by (bit_vector);
        BFloat16((bits >> 16) as u16)
    }

    /// The bits of the 32-bit number that the brain form stands for: its
    /// bits with sixteen zeros behind them.
    pub fn to_f32_bits(self) -> (bits: u32)
        ensures
            bits == widened(self.spec_bits()),
    {
        (self.0 as u32) << 16
    }

    /// The bits.
    pub fn to_bits(self) -> (b: u16)
        ensures
            b == self.spec_bits(),
    {
        self.0
    }

    /// The number with these bits.
    pub fn from_bits(bits: u16) -> (b: Self)
        ensures
            b.spec_bits() == bits,
    {
        BFloat16(bits)
    }
}

impl Default for BFloat16 {
    fn default() -> (b: BFloat16)
        ensures
            b.spec_bits() == 0,
    {
        BFloat16(0)
    }
}

/// Going to the brain form and back keeps the upper sixteen bits and
/// clears the lower ones; going from sixteen bits to 32 and back changes
/// nothing.
pub proof fn brain_form_round_trip(bits: u32, short: u16)
    ensures
        widened(upper_bits(bits)) == bits & 0xFFFF0000,
        upper_bits(widened(short)) == short,
{
    assert(((((bits >> 16) as u16) as u32) << 16) == bits & 0xFFFF0000) by (bit_vector);
    assert(((((short as u32) << 16) >> 16) as u16) == short) by (bit_vector);
}

/// The half-precision form keeps the sign.
pub proof fn half_form_keeps_sign(bits: u32)
    requires
        !(exponent_of(bits) == 0xFF && fraction_of(bits) != 0),
    ensures
        (half_bits(bits) >> 15) as u32 == sign_of(bits),
{
    let sign = sign_of(bits);
    let exp = exponent_of(bits);
    let frac = fraction_of(bits);
    fields_fit(bits);
    assert(((((sign << 15) | 0x7C00) as u16) >> 15) as u32 == sign) by (bit_vector)
        requires
            sign <= 1,
    ;
    assert((((sign << 15) as u16) >> 15) as u32 == sign) by (bit_vector)
        requires
            sign <= 1,
    ;
    if 112 < exp < 143 {
        let e = (exp - 112) as u32;
        assert(((((sign << 15) | (e << 10) | (frac >> 13)) as u16) >> 15) as u32 == sign) by (bit_vector)
            requires
                sign <= 1,
                e <= 30,
                frac <= 0x7FFFFF,
        ;
    }
}

} // verus!
