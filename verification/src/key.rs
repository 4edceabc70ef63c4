//! Ordered keys for real numbers.
//!
//! The measurements and losses of the pipeline are IEEE 754 binary64
//! numbers. This crate compares them and never computes with them, so it
//! holds each as a key: a signed 64-bit integer that grows with the number.
//! The caller reads a number's bit pattern, asks [`key_of_bits`] for the
//! key, and gets the pattern back from [`bits_of_key`].
//!
//! A pattern is a sign bit above a 63-bit magnitude. Numbers that are not
//! NaN compare by sign and magnitude, and the two zeros are equal. Every NaN
//! gets the greatest key, so that it never counts as a minimum or as an
//! improvement.

use vstd::prelude::*;

verus! {

/// The bit that holds the sign of a pattern.
pub const SIGN_BIT: u64 = 0x8000_0000_0000_0000;

/// The magnitude of an infinity: the greatest that is not a NaN.
pub const INFINITY_BITS: u64 = 0x7ff0_0000_0000_0000;

/// The pattern that [`bits_of_key`] gives for the key of a NaN.
pub const NAN_BITS: u64 = 0x7ff8_0000_0000_0000;

/// The key of every NaN.
pub const NAN_KEY: i64 = 0x7fff_ffff_ffff_ffff;

/// The pattern without its sign bit.
pub open spec fn magnitude(bits: u64) -> int {
    if bits < SIGN_BIT {
        bits as int
    } else {
        bits - SIGN_BIT
    }
}

/// Whether the pattern's sign bit is set.
pub open spec fn is_negative(bits: u64) -> bool {
    bits >= SIGN_BIT
}

/// Whether the pattern is a NaN.
pub open spec fn is_nan(bits: u64) -> bool {
    magnitude(bits) > INFINITY_BITS
}

/// Whether the number with pattern `a` is less than the number with pattern
/// `b`, for patterns that are not NaN: a negative number is less than a
/// non-negative one unless both are zero, non-negative numbers compare as
/// their magnitudes, and negative numbers the other way round.
pub open spec fn number_lt(a: u64, b: u64) -> bool {
    if is_negative(a) && is_negative(b) {
        magnitude(a) > magnitude(b)
    } else if is_negative(a) {
        magnitude(a) != 0 || magnitude(b) != 0
    } else if is_negative(b) {
        false
    } else {
        magnitude(a) < magnitude(b)
    }
}

/// The key of a pattern: the magnitude with the number's sign, or the
/// greatest key for a NaN.
pub open spec fn spec_key_of_bits(bits: u64) -> i64 {
    if is_nan(bits) {
        NAN_KEY
    } else if is_negative(bits) {
        (-magnitude(bits)) as i64
    } else {
        magnitude(bits) as i64
    }
}

/// The pattern of a key: the key's size as the magnitude under the key's
/// sign, or [`NAN_BITS`] for a key beyond the infinities.
pub open spec fn spec_bits_of_key(key: i64) -> u64 {
    if key > INFINITY_BITS || key < -INFINITY_BITS {
        NAN_BITS
    } else if key < 0 {
        (SIGN_BIT + (-key)) as u64
    } else {
        key as u64
    }
}

/// The key of the number with the given bit pattern.
pub fn key_of_bits(bits: u64) -> (key: i64)
    ensures
        key == spec_key_of_bits(bits),
{
    if bits < SIGN_BIT {
        if bits > INFINITY_BITS {
            NAN_KEY
        } else {
            bits as i64
        }
    } else {
        let size: u64 = bits - SIGN_BIT;
        if size > INFINITY_BITS {
            NAN_KEY
        } else {
            -(size as i64)
        }
    }
}

/// The bit pattern of the number with the given key.
pub fn bits_of_key(key: i64) -> (bits: u64)
    ensures
        bits == spec_bits_of_key(key),
{
    if key > 0x7ff0_0000_0000_0000 || key < -0x7ff0_0000_0000_0000 {
        NAN_BITS
    } else if key < 0 {
        SIGN_BIT + ((-key) as u64)
    } else {
        key as u64
    }
}

/// Keys compare as the numbers do: among patterns that are not NaN, one key
/// is below another exactly when its number is less, and keys are equal
/// exactly when the numbers are. The key of a NaN is above all of them.
pub proof fn lemma_keys_order_as_numbers(a: u64, b: u64)
    requires
        !is_nan(a),
    ensures
        !is_nan(b) ==> (spec_key_of_bits(a) < spec_key_of_bits(b) <==> number_lt(a, b)),
        !is_nan(b) ==> (spec_key_of_bits(a) == spec_key_of_bits(b) <==> !number_lt(a, b)
            && !number_lt(b, a)),
        is_nan(b) ==> spec_key_of_bits(a) < spec_key_of_bits(b),
{
}

/// The pattern of a number's key is the number's own pattern, but that
/// negative zero comes back as zero and any NaN as [`NAN_BITS`].
pub proof fn lemma_key_round_trip(bits: u64)
    ensures
        !is_nan(bits) && bits != SIGN_BIT ==> spec_bits_of_key(spec_key_of_bits(bits)) == bits,
        bits == SIGN_BIT ==> spec_bits_of_key(spec_key_of_bits(bits)) == 0,
        is_nan(bits) ==> spec_bits_of_key(spec_key_of_bits(bits)) == NAN_BITS,
        is_nan(NAN_BITS),
{
}

} // verus!
