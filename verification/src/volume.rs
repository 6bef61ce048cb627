//! Volume levels.
//!
//! A level is a scalar between 0.0 and 1.0, carried as the bit pattern of an
//! IEEE 754 binary32 number so that it stays exact on its way through the
//! engine. For patterns with a clear sign bit, the order of the patterns as
//! unsigned integers is the order of the numbers they encode; that is what
//! makes clamping a matter of integer comparison.

use vstd::prelude::*;

verus! {

/// The pattern of 0.0: silence.
pub const SILENT: u32 = 0;

/// The pattern of 1.0: the unfiltered level.
pub const FULL: u32 = 0x3F80_0000;

/// The lowest pattern with the sign bit set. Every pattern from here on
/// encodes a negative number, negative zero or a negative not-a-number.
pub const SIGN: u32 = 0x8000_0000;

/// Whether `bits` encodes a number between 0.0 and 1.0, ends included.
pub open spec fn in_unit_range(bits: u32) -> bool {
    bits <= FULL
}

/// The level that a request for `bits` is taken as: itself when it lies in
/// the unit range, else the nearer end of the range. Patterns with the sign
/// bit set go to silence; positive patterns above 1.0, infinity and positive
/// not-a-number among them, go to the full level.
pub open spec fn clamped(bits: u32) -> u32 {
    if bits >= SIGN {
        SILENT
    } else if bits > FULL {
        FULL
    } else {
        bits
    }
}

/// Clamps a requested level into the unit range.
pub fn clamp(bits: u32) -> (level: u32)
    ensures
        level == clamped(bits),
        in_unit_range(level),
{
    if bits >= SIGN {
        SILENT
    } else if bits > FULL {
        FULL
    } else {
        bits
    }
}

/// Clamping leaves a level of the unit range as it is, and clamping twice is
/// clamping once.
pub proof fn lemma_clamped_is_idempotent(bits: u32)
    ensures
        in_unit_range(clamped(bits)),
        in_unit_range(bits) ==> clamped(bits) == bits,
        clamped(clamped(bits)) == clamped(bits),
{
}

/// Clamping keeps the order of non-negative levels.
pub proof fn lemma_clamped_is_monotone(low: u32, high: u32)
    requires
        low <= high < SIGN,
    ensures
        clamped(low) <= clamped(high),
{
}

} // verus!
