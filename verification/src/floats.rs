//! 32-bit floats as their bit patterns: a sign bit above 31 bits of
//! magnitude. The magnitudes up to that of infinity are ordered as the
//! numbers they stand for; every larger magnitude is no number.

use core::cmp::Ordering;
use vstd::prelude::*;

verus! {

/// The float `0.0`.
pub const ZERO: u32 = 0;

/// The float `1.0`.
pub const ONE: u32 = 0x3f80_0000;

/// The bit that holds the sign of a float; the bits below it hold its
/// magnitude.
pub const SIGN_BIT: u32 = 0x8000_0000;

/// The magnitude of the infinite floats.
pub const INFINITY: u32 = 0x7f80_0000;

/// Whether the bits are those of a number, finite or infinite.
pub open spec fn is_number(float: u32) -> bool {
    float % SIGN_BIT <= INFINITY
}

/// Whether the bits are those of a finite number.
pub open spec fn is_finite(float: u32) -> bool {
    float % SIGN_BIT < INFINITY
}

/// The place of a number in the order of the floats: its magnitude, taken
/// negative under the sign bit. The two zeros have the same place.
pub open spec fn float_key(float: u32) -> int {
    if float >= SIGN_BIT {
        -(float - SIGN_BIT)
    } else {
        float as int
    }
}

/// `first <= second` as floats: false if either is no number.
pub open spec fn float_le(first: u32, second: u32) -> bool {
    is_number(first) && is_number(second) && float_key(first) <= float_key(second)
}

/// The float with the other sign: the same magnitude under the other sign
/// bit.
pub open spec fn negated(float: u32) -> u32 {
    if float >= SIGN_BIT {
        (float - SIGN_BIT) as u32
    } else {
        (float + SIGN_BIT) as u32
    }
}

/// How a float compares with zero: not at all if it is no number, as equal
/// if it is a zero of either sign, and else by its sign.
pub open spec fn sign_of(float: u32) -> Option<Ordering> {
    if float % SIGN_BIT > INFINITY {
        None
    } else if float % SIGN_BIT == 0 {
        Some(Ordering::Equal)
    } else if float >= SIGN_BIT {
        Some(Ordering::Less)
    } else {
        Some(Ordering::Greater)
    }
}

fn key(float: u32) -> (k: i64)
    ensures
        k == float_key(float),
{
    if float >= SIGN_BIT {
        -((float - SIGN_BIT) as i64)
    } else {
        float as i64
    }
}

/// Gives a float the other sign.
pub fn negate(float: u32) -> (r: u32)
    ensures
        r == negated(float),
{
    if float >= SIGN_BIT {
        float - SIGN_BIT
    } else {
        float + SIGN_BIT
    }
}

/// Whether a float is a finite number.
pub fn finite(float: u32) -> (r: bool)
    ensures
        r == is_finite(float),
{
    float % SIGN_BIT < INFINITY
}

/// Whether `first <= second` as floats.
pub fn le(first: u32, second: u32) -> (r: bool)
    ensures
        r == float_le(first, second),
{
    if first % SIGN_BIT > INFINITY || second % SIGN_BIT > INFINITY {
        return false;
    }
    key(first) <= key(second)
}

/// Compares a float with zero.
pub fn compare_with_zero(float: u32) -> (sign: Option<Ordering>)
    ensures
        sign == sign_of(float),
{
    let magnitude: u32 = float % SIGN_BIT;
    if magnitude > INFINITY {
        None
    } else if magnitude == 0 {
        Some(Ordering::Equal)
    } else if float >= SIGN_BIT {
        Some(Ordering::Less)
    } else {
        Some(Ordering::Greater)
    }
}

/// The order of the floats and their comparison with zero agree: a number is
/// at most zero exactly when it compares as less or equal, and at least zero
/// exactly when it compares as greater or equal; what is no number is
/// neither.
pub proof fn lemma_sign_agrees_with_order(float: u32)
    ensures
        float_le(float, ZERO) <==> (sign_of(float) == Some(Ordering::Less) || sign_of(float)
            == Some(Ordering::Equal)),
        float_le(ZERO, float) <==> (sign_of(float) == Some(Ordering::Greater) || sign_of(float)
            == Some(Ordering::Equal)),
        sign_of(float) is None <==> !is_number(float),
{
}

/// A float with its sign changed twice is the float itself, and the change
/// of sign turns the order of the numbers round.
pub proof fn lemma_negated(first: u32, second: u32)
    ensures
        negated(negated(first)) == first,
        is_number(negated(first)) == is_number(first),
        float_le(first, second) <==> float_le(negated(second), negated(first)),
{
}

/// The order of the numbers is total and transitive, and two numbers are
/// each at most the other exactly when they are the same or both zero.
pub proof fn lemma_float_order(first: u32, second: u32, third: u32)
    ensures
        is_number(first) && is_number(second) ==> float_le(first, second) || float_le(
            second,
            first,
        ),
        float_le(first, second) && float_le(second, third) ==> float_le(first, third),
        float_le(first, second) && float_le(second, first) <==> is_number(first) && is_number(
            second,
        ) && (first == second || (first % SIGN_BIT == 0 && second % SIGN_BIT == 0)),
{
}

} // verus!
