//! Exact ordering of IEEE-754 binary64 values given by their bit patterns.
//!
//! A value is carried as the `u64` that `f64::to_bits` returns.  The sign bit
//! is the top bit, the remaining 63 bits are the magnitude; for every value
//! that is not NaN, the order of the reals equals the order of the signed
//! magnitudes, with `-0.0` and `+0.0` equal.  Every comparison that involves
//! a NaN is false.

use vstd::prelude::*;

verus! {

/// The sign bit of a binary64 bit pattern.
pub const SIGN_BIT: u64 = 0x8000_0000_0000_0000;

/// Bit pattern of positive infinity; any larger magnitude encodes a NaN.
pub const INFINITY_BITS: u64 = 0x7FF0_0000_0000_0000;

/// `0.0`
pub const ZERO: u64 = 0x0000_0000_0000_0000;

/// True when the sign bit is set.
pub open spec fn sign_set(bits: u64) -> bool {
    bits >= SIGN_BIT
}

/// The 63 low bits: exponent and fraction.
pub open spec fn magnitude(bits: u64) -> int {
    if sign_set(bits) {
        bits - SIGN_BIT
    } else {
        bits as int
    }
}

/// The pattern encodes a NaN.
pub open spec fn is_nan(bits: u64) -> bool {
    magnitude(bits) > INFINITY_BITS
}

/// An integer that orders non-NaN values as the reals they denote.
pub open spec fn order_key(bits: u64) -> int {
    if sign_set(bits) {
        -magnitude(bits)
    } else {
        magnitude(bits)
    }
}

/// `a < b` on binary64 values.
pub open spec fn float_lt(a: u64, b: u64) -> bool {
    &&& !is_nan(a)
    &&& !is_nan(b)
    &&& order_key(a) < order_key(b)
}

/// `a <= b` on binary64 values.
pub open spec fn float_le(a: u64, b: u64) -> bool {
    &&& !is_nan(a)
    &&& !is_nan(b)
    &&& order_key(a) <= order_key(b)
}

/// Sign flag and magnitude of a bit pattern.
fn split(bits: u64) -> (r: (bool, u64))
    ensures
        r.0 == sign_set(bits),
        r.1 == magnitude(bits),
{
    if bits >= SIGN_BIT {
        (true, bits - SIGN_BIT)
    } else {
        (false, bits)
    }
}

/// Whether a bit pattern encodes a NaN (`f64::is_nan`).
pub fn nan(bits: u64) -> (r: bool)
    ensures
        r == is_nan(bits),
{
    let (_, m) = split(bits);
    m > INFINITY_BITS
}

/// `a < b` for binary64 values given by their bit patterns.
pub fn lt(a: u64, b: u64) -> (r: bool)
    ensures
        r == float_lt(a, b),
{
    let (sa, ma) = split(a);
    let (sb, mb) = split(b);
    if ma > INFINITY_BITS || mb > INFINITY_BITS {
        false
    } else if !sa && !sb {
        ma < mb
    } else if sa && !sb {
        ma != 0 || mb != 0
    } else if !sa && sb {
        false
    } else {
        mb < ma
    }
}

/// `a <= b` for binary64 values given by their bit patterns.
pub fn le(a: u64, b: u64) -> (r: bool)
    ensures
        r == float_le(a, b),
{
    let (sa, ma) = split(a);
    let (sb, mb) = split(b);
    if ma > INFINITY_BITS || mb > INFINITY_BITS {
        false
    } else if !sa && !sb {
        ma <= mb
    } else if sa && !sb {
        true
    } else if !sa && sb {
        ma == 0 && mb == 0
    } else {
        mb <= ma
    }
}

/// `lo <= x && x <= hi`, the test that `(lo..=hi).contains(&x)` makes.
pub fn within(x: u64, lo: u64, hi: u64) -> (r: bool)
    ensures
        r == (float_le(lo, x) && float_le(x, hi)),
{
    le(lo, x) && le(x, hi)
}

/// The order laws of binary64 comparison: `<=` is reflexive on every value
/// that is not NaN and transitive, `<` is irreflexive and transitive and
/// implies `<=`, any two values that are not NaN are comparable, and every
/// comparison with a NaN is false.
pub proof fn lemma_float_order(a: u64, b: u64, c: u64)
    ensures
        !is_nan(a) ==> float_le(a, a),
        !float_lt(a, a),
        float_lt(a, b) ==> float_le(a, b),
        float_le(a, b) && float_le(b, c) ==> float_le(a, c),
        float_lt(a, b) && float_le(b, c) ==> float_lt(a, c),
        float_le(a, b) && float_lt(b, c) ==> float_lt(a, c),
        !is_nan(a) && !is_nan(b) ==> (float_le(a, b) || float_lt(b, a)),
        float_le(a, b) ==> !float_lt(b, a),
        is_nan(a) ==> !float_le(a, b) && !float_le(b, a) && !float_lt(a, b) && !float_lt(b, a),
{
}

/// Binary64 `<` read directly off the bit patterns: among non-negative
/// patterns (sign clear) it is integer `<`; among negative patterns it is
/// integer `>`; a negative pattern is below a non-negative one unless both
/// are zeros; a non-negative pattern is never below a negative one; and a
/// NaN operand makes it false.  `<=` is `<` or denoting the same real,
/// where the only distinct patterns that denote the same real are `-0.0`
/// and `+0.0`.
pub proof fn lemma_float_order_on_bits(a: u64, b: u64)
    ensures
        !is_nan(a) && !is_nan(b) && a < SIGN_BIT && b < SIGN_BIT ==> (float_lt(a, b) <==> a < b),
        !is_nan(a) && !is_nan(b) && a >= SIGN_BIT && b >= SIGN_BIT ==> (float_lt(a, b) <==> b < a),
        !is_nan(a) && !is_nan(b) && a >= SIGN_BIT && b < SIGN_BIT ==> (float_lt(a, b) <==> !(a
            == SIGN_BIT && b == 0)),
        a < SIGN_BIT && b >= SIGN_BIT ==> !float_lt(a, b),
        is_nan(a) || is_nan(b) ==> !float_lt(a, b) && !float_le(a, b),
        !is_nan(a) && !is_nan(b) ==> (float_le(a, b) <==> (float_lt(a, b) || a == b || (a
            == SIGN_BIT && b == 0) || (a == 0 && b == SIGN_BIT))),
        is_nan(a) <==> (a > INFINITY_BITS && a < SIGN_BIT) || a > SIGN_BIT + INFINITY_BITS,
{
}

} // verus!
