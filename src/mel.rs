//! Triangular mel filters over FFT bins, with each weight held as an exact
//! ratio of bin distances.
//!
//! A filter with boundary bins `lo <= mid <= hi` rises over `[lo, mid)` as
//! `(f - lo) / (mid - lo)`, falls over `[mid, hi)` as `(hi - f) / (hi - mid)`
//! and is zero elsewhere. A half whose two boundaries collapse onto one bin is
//! empty, so no weight ever divides by zero: such a filter has no bin at 1.
use vstd::prelude::*;

verus! {

/// The weight `num / den` of one bin in one filter.
#[derive(Clone, Copy, Debug, PartialEq, Eq, Structural)]
pub struct Weight {
    pub num: usize,
    pub den: usize,
}

/// Numerator and denominator of the weight of bin `f` in the filter with
/// boundary bins `lo`, `mid` and `hi`.
pub open spec fn triangle(lo: int, mid: int, hi: int, f: int) -> (int, int) {
    if lo <= f < mid {
        (f - lo, mid - lo)
    } else if mid <= f < hi {
        (hi - f, hi - mid)
    } else {
        (0, 1)
    }
}

/// `w` is the weight of bin `f` in the filter `lo`, `mid`, `hi`.
pub open spec fn weight_is(w: Weight, lo: int, mid: int, hi: int, f: int) -> bool {
    (w.num as int, w.den as int) == triangle(lo, mid, hi, f)
}

/// `row` is the filter `lo`, `mid`, `hi` over `columns` bins.
pub open spec fn row_is(row: Seq<Weight>, lo: int, mid: int, hi: int, columns: int) -> bool {
    &&& row.len() == columns
    &&& forall|f: int| 0 <= f < columns ==> weight_is(#[trigger] row[f], lo, mid, hi, f)
}

/// Number of filters that `bins` boundary bins delimit.
pub open spec fn filter_count(bins: Seq<usize>) -> int {
    if bins.len() >= 2 {
        bins.len() - 2
    } else {
        0
    }
}

/// The filter `lo`, `mid`, `hi` over bins `0..columns`.
pub fn triangle_row(lo: usize, mid: usize, hi: usize, columns: usize) -> (r: Vec<Weight>)
    ensures
        row_is(r@, lo as int, mid as int, hi as int, columns as int),
{
    let mut row: Vec<Weight> = Vec::new();
    let mut f: usize = 0;
    while f < columns
        invariant
            f <= columns,
            row@.len() == f,
            forall|g: int| 0 <= g < f ==> weight_is(#[trigger] row@[g], lo as int, mid as int, hi as int, g),
        decreases columns - f,
    {
        let w = if lo <= f && f < mid {
            Weight { num: f - lo, den: mid - lo }
        } else if mid <= f && f < hi {
            Weight { num: hi - f, den: hi - mid }
        } else {
            Weight { num: 0, den: 1 }
        };
        row.push(w);
        f = f + 1;
    }
    row
}

/// The filter bank: filter `i` has boundary bins `bins[i]`, `bins[i + 1]` and
/// `bins[i + 2]`, and spans `columns` bins.
pub fn filter_bank_weights(bins: &[usize], columns: usize) -> (r: Vec<Vec<Weight>>)
    ensures
        r@.len() == filter_count(bins@),
        forall|i: int|
            0 <= i < filter_count(bins@) ==> row_is(
                (#[trigger] r@[i])@,
                bins@[i] as int,
                bins@[i + 1] as int,
                bins@[i + 2] as int,
                columns as int,
            ),
{
    let mut bank: Vec<Vec<Weight>> = Vec::new();
    if bins.len() < 2 {
        return bank;
    }
    let count = bins.len() - 2;
    let mut i: usize = 0;
    while i < count
        invariant
            count == filter_count(bins@),
            i <= count,
            bank@.len() == i,
            forall|k: int|
                0 <= k < i ==> row_is(
                    (#[trigger] bank@[k])@,
                    bins@[k] as int,
                    bins@[k + 1] as int,
                    bins@[k + 2] as int,
                    columns as int,
                ),
        decreases count - i,
    {
        bank.push(triangle_row(bins[i], bins[i + 1], bins[i + 2], columns));
        i = i + 1;
    }
    bank
}

/// Shape of every filter with non-decreasing boundary bins: its weights lie
/// in `[0, 1]` and never divide by zero, it is zero outside `[lo, hi)`, and it
/// reaches exactly 1 at its centre bin `mid` and nowhere else, except when its
/// falling half is empty (`mid == hi`), where it never reaches 1.
pub proof fn lemma_filter_shape(lo: int, mid: int, hi: int, f: int)
    requires
        0 <= lo <= mid <= hi,
    ensures
        triangle(lo, mid, hi, f).1 > 0,
        0 <= triangle(lo, mid, hi, f).0 <= triangle(lo, mid, hi, f).1,
        f < lo || f >= hi ==> triangle(lo, mid, hi, f).0 == 0,
        mid < hi ==> triangle(lo, mid, hi, mid).0 == triangle(lo, mid, hi, mid).1,
        f != mid || mid == hi ==> triangle(lo, mid, hi, f).0 < triangle(lo, mid, hi, f).1,
{
}

} // verus!
