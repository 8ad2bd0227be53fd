//! Numbers as the records carry them.
//!
//! Real-valued fields travel through this library untouched: nothing here
//! adds, compares or rounds them. A field therefore holds the IEEE 754 bit
//! pattern of its number, which makes "copied exactly" a statement about
//! integers. Integer fields that change width between the wire and the
//! domain do so by two's-complement wrapping, stated here once.

use vstd::prelude::*;

verus! {

/// A single-precision real number, held as its IEEE 754 bit pattern.
#[derive(Clone, Copy, Debug, PartialEq, Eq, Structural)]
pub struct Real32 {
    pub bits: u32,
}

/// A double-precision real number, held as its IEEE 754 bit pattern.
#[derive(Clone, Copy, Debug, PartialEq, Eq, Structural)]
pub struct Real64 {
    pub bits: u64,
}

impl Real32 {
    /// Positive zero, the value a field takes when nothing better is known.
    pub open spec fn spec_zero() -> Real32 {
        Real32 { bits: 0 }
    }

    #[verifier::when_used_as_spec(spec_zero)]
    pub fn zero() -> (z: Real32)
        ensures
            z == Self::spec_zero(),
    {
        Real32 { bits: 0 }
    }

    /// The number that a reading of numeric text stands for: the reading
    /// itself, or zero where the text was no number.
    pub open spec fn spec_or_zero(reading: Option<Real32>) -> Real32 {
        match reading {
            Some(value) => value,
            None => Self::spec_zero(),
        }
    }

    #[verifier::when_used_as_spec(spec_or_zero)]
    pub fn or_zero(reading: Option<Real32>) -> (value: Real32)
        ensures
            value == Self::spec_or_zero(reading),
    {
        match reading {
            Some(value) => value,
            None => Real32 { bits: 0 },
        }
    }
}

impl Real64 {
    /// Positive zero.
    pub open spec fn spec_zero() -> Real64 {
        Real64 { bits: 0 }
    }

    #[verifier::when_used_as_spec(spec_zero)]
    pub fn zero() -> (z: Real64)
        ensures
            z == Self::spec_zero(),
    {
        Real64 { bits: 0 }
    }
}

/// The signed 32-bit integer congruent to `value` modulo 2^32.
pub open spec fn wrapped_i32(value: int) -> int {
    let low = value % 0x1_0000_0000;
    if low < 0x8000_0000 {
        low
    } else {
        low - 0x1_0000_0000
    }
}

/// `value` divided by `divisor`, rounded toward zero.
pub open spec fn truncating_div(value: int, divisor: int) -> int
    recommends
        divisor > 0,
{
    if value >= 0 {
        value / divisor
    } else {
        -((-value) / divisor)
    }
}

/// Reinterprets an unsigned 32-bit count as a signed one: values up to
/// `i32::MAX` keep their value, larger ones wrap to the negative range.
pub fn count_to_signed(count: u32) -> (signed: i32)
    ensures
        signed == wrapped_i32(count as int),
        count <= i32::MAX ==> signed == count,
        count > i32::MAX ==> signed == count - 0x1_0000_0000,
{
    if count <= 0x7fff_ffff {
        count as i32
    } else {
        let above: u32 = count - 0x8000_0000;
        let above_signed: i32 = above as i32;
        above_signed + i32::MIN
    }
}

/// Narrows a 64-bit integer to 32 bits, keeping the low 32 bits.
pub fn narrow_to_i32(value: i64) -> (narrow: i32)
    ensures
        narrow == wrapped_i32(value as int),
        i32::MIN <= value <= i32::MAX ==> narrow == value,
{
    let rem: i64 = value % 0x1_0000_0000;
    let low: i64 = if rem < 0 {
        rem + 0x1_0000_0000
    } else {
        rem
    };
    assert(low == (value as int) % 0x1_0000_0000);
    if low < 0x8000_0000 {
        low as i32
    } else {
        (low - 0x1_0000_0000) as i32
    }
}

/// Scales a millisecond count down to whole seconds, rounding toward zero,
/// and keeps the low 32 bits of the quotient.
pub fn millis_to_wire_seconds(millis: i64) -> (seconds: i32)
    ensures
        seconds == wrapped_i32(truncating_div(millis as int, 1000)),
{
    let quotient: i64 = millis / 1000;
    narrow_to_i32(quotient)
}

/// Within the range whose quotient fits 32 bits, scaling down loses exactly
/// the remainder: the wire value times 1000 is the millisecond count
/// rounded toward zero to a whole second.
pub proof fn lemma_millis_truncation(millis: int)
    requires
        -0x8000_0000 * 1000 <= millis < 0x8000_0000 * 1000,
    ensures
        wrapped_i32(truncating_div(millis, 1000)) == truncating_div(millis, 1000),
        millis >= 0 ==> wrapped_i32(truncating_div(millis, 1000)) * 1000 == millis - millis
            % 1000,
        millis < 0 ==> wrapped_i32(truncating_div(millis, 1000)) * 1000 == millis + (-millis)
            % 1000,
{
    let q = truncating_div(millis, 1000);
    assert(-0x8000_0000 <= q < 0x8000_0000);
    assert(q % 0x1_0000_0000 == if q >= 0 {
        q
    } else {
        q + 0x1_0000_0000
    });
}

} // verus!
