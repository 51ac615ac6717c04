//! The output volume, kept as the bits of an IEEE-754 single.
//!
//! The engine never computes with the volume; it only decides which values
//! are admitted and hands the admitted bits to whoever scales the samples.
//! For singles without the sign bit the order of the values is the order of
//! their bit patterns, so the range check is a comparison of integers.

use vstd::prelude::*;

verus! {

/// Bits of `1.0`.
pub const ONE_BITS: u32 = 0x3f80_0000;

/// Bits of the least single that still counts as `1.0` when samples are
/// scaled: `1.0 - 2^-23`, whose distance to one does not exceed the
/// machine epsilon.
pub const UNITY_FLOOR_BITS: u32 = 0x3f7f_fffe;

/// Bits of positive infinity; every pattern above it, sign aside, is a NaN.
pub const INFINITY_BITS: u32 = 0x7f80_0000;

/// The sign bit of a single.
pub const SIGN_BIT: u32 = 0x8000_0000;

/// The pattern without its sign bit.
pub open spec fn magnitude(bits: u32) -> u32 {
    bits & 0x7fff_ffff
}

/// The pattern encodes no number.
pub open spec fn is_nan(bits: u32) -> bool {
    magnitude(bits) > INFINITY_BITS
}

/// The pattern has the sign bit set.
pub open spec fn is_negative(bits: u32) -> bool {
    bits & SIGN_BIT != 0
}

/// The bits of `value` clamped to `[0, 1]`: zero for every negative number
/// (negative zero and negative infinity included), one for every number
/// above one (positive infinity included), the number itself otherwise.
/// A NaN has no clamped value.
pub open spec fn clamped_bits(bits: u32) -> Option<u32> {
    if is_nan(bits) {
        None
    } else if is_negative(bits) {
        Some(0u32)
    } else if bits > ONE_BITS {
        Some(ONE_BITS)
    } else {
        Some(bits)
    }
}

/// A volume between zero and one.
#[derive(Clone, Copy, Debug, PartialEq, Eq, Structural)]
pub struct Volume {
    pub bits: u32,
}

impl Volume {
    /// The bits of the volume.
    pub open spec fn view(&self) -> u32 {
        self.bits
    }

    /// The volume lies in `[0, 1]`.
    pub open spec fn wf(&self) -> bool {
        self@ <= ONE_BITS
    }

    /// Full volume, `1.0`.
    pub fn unity() -> (volume: Volume)
        ensures
            volume@ == ONE_BITS,
            volume.wf(),
    {
        Volume { bits: ONE_BITS }
    }

    /// Admits the single with the given bits: clamped to `[0, 1]`, or
    /// nothing for a NaN.
    pub fn from_bits(bits: u32) -> (volume: Option<Volume>)
        ensures
            match volume {
                Some(v) => clamped_bits(bits) == Some(v@) && v.wf(),
                None => clamped_bits(bits).is_none(),
            },
    {
        let magnitude = bits & 0x7fff_ffff;
        if magnitude > INFINITY_BITS {
            None
        } else if bits & SIGN_BIT != 0 {
            Some(Volume { bits: 0 })
        } else if bits > ONE_BITS {
            Some(Volume { bits: ONE_BITS })
        } else {
            Some(Volume { bits })
        }
    }

    /// The bits of the volume, for the code that scales samples.
    pub fn to_bits(&self) -> (bits: u32)
        ensures
            bits == self@,
    {
        self.bits
    }

    /// Scaling by this volume is skipped as a multiplication by one.
    pub open spec fn spec_is_unity(&self) -> bool {
        self@ >= UNITY_FLOOR_BITS
    }

    /// Whether the volume is within machine epsilon of one.
    #[verifier::when_used_as_spec(spec_is_unity)]
    pub fn is_unity(&self) -> (unity: bool)
        ensures
            unity == self.spec_is_unity(),
    {
        self.bits >= UNITY_FLOOR_BITS
    }
}

/// Clamping never leaves `[0, 1]`, keeps what already lies in it, and is
/// idempotent.
pub proof fn lemma_clamp_range(bits: u32)
    ensures
        clamped_bits(bits) matches Some(c) ==> c <= ONE_BITS && clamped_bits(c) == Some(c),
        bits <= ONE_BITS ==> clamped_bits(bits) == Some(bits),
{
    assert(forall|b: u32|
        b <= 0x3f80_0000u32 ==> #[trigger] (b & 0x7fff_ffffu32) == b && b & 0x8000_0000u32 == 0)
        by (bit_vector);
    if let Some(c) = clamped_bits(bits) {
        assert(c & 0x7fff_ffffu32 == c);
    }
    assert(bits <= ONE_BITS ==> bits & 0x7fff_ffffu32 == bits);
}

} // verus!
