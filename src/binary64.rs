//! Order of IEEE-754 binary64 values, read from their bit patterns.
//!
//! A binary32 value widens to binary64 exactly and keeps its order, so the
//! same model serves samples of either width.
//!
//! A pattern is split into a sign bit and a 63-bit magnitude (exponent and
//! fraction). Patterns whose magnitude lies above that of infinity are NaN.
//! For two patterns that are not NaN, the binary64 comparison `<` agrees with
//! the integer comparison of their ranks, where the rank is the magnitude
//! carrying the sign; `+0.0` and `-0.0` both have rank 0, as they compare equal.
use vstd::prelude::*;

verus! {

/// The sign bit of a binary64 pattern.
pub const SIGN_BIT: u64 = 0x8000_0000_0000_0000;

/// The magnitude field of positive and negative infinity.
pub const INFINITY_MAGNITUDE: u64 = 0x7ff0_0000_0000_0000;

/// Exponent and fraction of a pattern, without its sign.
pub open spec fn magnitude(bits: u64) -> int {
    (bits % SIGN_BIT) as int
}

/// The pattern is a NaN.
pub open spec fn is_nan(bits: u64) -> bool {
    magnitude(bits) > INFINITY_MAGNITUDE
}

/// The pattern is `+0.0` or `-0.0`.
pub open spec fn is_zero(bits: u64) -> bool {
    magnitude(bits) == 0
}

/// Every value of `s` is `+0.0` or `-0.0`: the frame is silent.
pub open spec fn all_zero(s: Seq<u64>) -> bool {
    forall|k: int| 0 <= k < s.len() ==> is_zero(#[trigger] s[k])
}

/// Position of the value on the number line, for patterns that are not NaN.
pub open spec fn rank(bits: u64) -> int {
    if bits >= SIGN_BIT {
        -magnitude(bits)
    } else {
        magnitude(bits)
    }
}

/// `a > b` as binary64 values: false whenever either is NaN.
pub open spec fn greater(a: u64, b: u64) -> bool {
    !is_nan(a) && !is_nan(b) && rank(a) > rank(b)
}

/// Whether the pattern is a NaN.
pub fn nan(bits: u64) -> (r: bool)
    ensures
        r == is_nan(bits),
{
    bits % SIGN_BIT > INFINITY_MAGNITUDE
}

/// Whether every sample of `samples` is `+0.0` or `-0.0`.
pub fn silent(samples: &[u64]) -> (r: bool)
    ensures
        r == all_zero(samples@),
{
    let mut i: usize = 0;
    while i < samples.len()
        invariant
            i <= samples@.len(),
            forall|k: int| 0 <= k < i ==> is_zero(#[trigger] samples@[k]),
        decreases samples@.len() - i,
    {
        if samples[i] % SIGN_BIT != 0 {
            return false;
        }
        i = i + 1;
    }
    true
}

/// The rank of a pattern.
pub fn rank_of(bits: u64) -> (r: i64)
    ensures
        r == rank(bits),
{
    let m = (bits % SIGN_BIT) as i64;
    if bits >= SIGN_BIT {
        -m
    } else {
        m
    }
}

/// `a > b` as binary64 values.
pub fn exceeds(a: u64, b: u64) -> (r: bool)
    ensures
        r == greater(a, b),
{
    !nan(a) && !nan(b) && rank_of(a) > rank_of(b)
}

} // verus!
