//! Decisions of two reductions over a frame or its spectrum: where the sign of
//! the signal changes, and which bins hold the peak and the valley of each
//! spectral-contrast band.
use vstd::prelude::*;
use crate::binary64::{is_nan, nan, SIGN_BIT};
use crate::peak::{extremes_found, extremes_in, Extremes};

verus! {

/// The sign of `a` and of `b` differ, as `f64::signum` tells them apart:
/// `+0.0` counts as positive, `-0.0` as negative, and NaN differs from all.
pub open spec fn sign_change(a: u64, b: u64) -> bool {
    is_nan(a) || is_nan(b) || (a >= SIGN_BIT) != (b >= SIGN_BIT)
}

/// Number of consecutive pairs of `s` that change sign.
pub open spec fn crossings(s: Seq<u64>) -> nat
    decreases s.len(),
{
    if s.len() < 2 {
        0
    } else {
        crossings(s.drop_last()) + if sign_change(s[s.len() - 2], s[s.len() - 1]) {
            1nat
        } else {
            0nat
        }
    }
}

/// Number of sign changes between consecutive samples of `signal`.
pub fn zero_crossings(signal: &[u64]) -> (r: usize)
    ensures
        r == crossings(signal@),
{
    let n = signal.len();
    if n < 2 {
        return 0;
    }
    let mut count: usize = 0;
    let mut i: usize = 1;
    while i < n
        invariant
            n == signal@.len(),
            1 <= i <= n,
            count <= i - 1,
            count == crossings(signal@.subrange(0, i as int)),
        decreases n - i,
    {
        let prev = signal[i - 1];
        let cur = signal[i];
        let changed = nan(prev) || nan(cur) || (prev >= SIGN_BIT) != (cur >= SIGN_BIT);
        assert(signal@.subrange(0, i + 1).drop_last() =~= signal@.subrange(0, i as int));
        if changed {
            count = count + 1;
        }
        i = i + 1;
    }
    assert(signal@.subrange(0, n as int) =~= signal@);
    count
}

/// Number of spectral-contrast bands.
pub const CONTRAST_BANDS: usize = 3;

/// First bin of contrast band `b`: the bands are `[0, 2)`, `[2, 4)` and `[4, 7)`.
pub open spec fn band_start(b: int) -> int {
    if b == 0 {
        0
    } else if b == 1 {
        2
    } else {
        4
    }
}

/// One past the last bin of contrast band `b`.
pub open spec fn band_end(b: int) -> int {
    if b == 0 {
        2
    } else if b == 1 {
        4
    } else {
        7
    }
}

/// `r` holds, for each band, the extremes of that band of `spectrum`, or
/// `None` where the band reaches past the spectrum or holds no number.
pub open spec fn contrast_extremes_of(spectrum: Seq<u64>, r: Seq<Option<Extremes>>) -> bool {
    &&& r.len() == CONTRAST_BANDS
    &&& forall|b: int|
        0 <= b < CONTRAST_BANDS ==> if band_end(b) <= spectrum.len() {
            extremes_found(spectrum, band_start(b), band_end(b), #[trigger] r[b])
        } else {
            r[b] is None
        }
}

/// Peak and valley bins of each contrast band of the amplitude spectrum.
pub fn contrast_extremes(spectrum: &[u64]) -> (r: Vec<Option<Extremes>>)
    ensures
        contrast_extremes_of(spectrum@, r@),
{
    let mut r: Vec<Option<Extremes>> = Vec::new();
    let mut b: usize = 0;
    while b < CONTRAST_BANDS
        invariant
            b <= CONTRAST_BANDS,
            r@.len() == b,
            forall|c: int|
                0 <= c < b ==> if band_end(c) <= spectrum@.len() {
                    extremes_found(spectrum@, band_start(c), band_end(c), #[trigger] r@[c])
                } else {
                    r@[c] is None
                },
        decreases CONTRAST_BANDS - b,
    {
        let (start, end): (usize, usize) = if b == 0 {
            (0, 2)
        } else if b == 1 {
            (2, 4)
        } else {
            (4, 7)
        };
        if end <= spectrum.len() {
            r.push(extremes_in(spectrum, start, end));
        } else {
            r.push(None);
        }
        b = b + 1;
    }
    r
}

} // verus!
