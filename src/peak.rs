//! Searches for the largest value of a sequence of binary64 samples.
use vstd::prelude::*;
use crate::binary64::{is_nan, rank, exceeds, nan, rank_of};

verus! {

/// `values[k]` is a number strictly above `0.0`.
pub open spec fn positive(values: Seq<u64>, k: int) -> bool {
    !is_nan(values[k]) && rank(values[k]) > 0
}

/// `i` is the first position of `[start, end)` that holds the largest number
/// of that range: NaN entries take no part in the comparison.
pub open spec fn first_largest(values: Seq<u64>, start: int, end: int, i: int) -> bool {
    &&& start <= i < end
    &&& !is_nan(values[i])
    &&& forall|k: int| start <= k < end && !is_nan(values[k]) ==> rank(#[trigger] values[k]) <= rank(values[i])
    &&& forall|k: int| start <= k < i && !is_nan(values[k]) ==> rank(#[trigger] values[k]) < rank(values[i])
}

/// `i` is the first position of `[start, end)` that holds the smallest number
/// of that range: NaN entries take no part in the comparison.
pub open spec fn first_smallest(values: Seq<u64>, start: int, end: int, i: int) -> bool {
    &&& start <= i < end
    &&& !is_nan(values[i])
    &&& forall|k: int| start <= k < end && !is_nan(values[k]) ==> rank(values[i]) <= rank(#[trigger] values[k])
    &&& forall|k: int| start <= k < i && !is_nan(values[k]) ==> rank(values[i]) < rank(#[trigger] values[k])
}

/// Positions of the largest and the smallest number of a range.
#[derive(Clone, Copy, Debug, PartialEq, Eq, Structural)]
pub struct Extremes {
    pub peak: usize,
    pub valley: usize,
}

/// `r` is the outcome of the search for the extremes of `[start, end)`.
pub open spec fn extremes_found(values: Seq<u64>, start: int, end: int, r: Option<Extremes>) -> bool {
    match r {
        Some(e) => first_largest(values, start, end, e.peak as int) && first_smallest(
            values,
            start,
            end,
            e.valley as int,
        ),
        None => forall|k: int| start <= k < end ==> is_nan(#[trigger] values[k]),
    }
}

/// The first positions of `[start, end)` holding its largest and its smallest
/// number; `None` when the range holds no number.
pub fn extremes_in(values: &[u64], start: usize, end: usize) -> (r: Option<Extremes>)
    requires
        start <= end <= values@.len(),
    ensures
        extremes_found(values@, start as int, end as int, r),
{
    let mut found: Option<Extremes> = None;
    let mut i = start;
    while i < end
        invariant
            start <= i <= end <= values@.len(),
            extremes_found(values@, start as int, i as int, found),
        decreases end - i,
    {
        let v = values[i];
        if !nan(v) {
            match found {
                Some(e) => {
                    let peak = if exceeds(v, values[e.peak]) {
                        i
                    } else {
                        e.peak
                    };
                    let valley = if exceeds(values[e.valley], v) {
                        i
                    } else {
                        e.valley
                    };
                    found = Some(Extremes { peak, valley });
                },
                None => {
                    found = Some(Extremes { peak: i, valley: i });
                },
            }
        }
        i = i + 1;
    }
    found
}

/// The first position of `[start, end)` holding the largest value, where that
/// value is above `0.0`; `None` when no value of the range is above `0.0`.
pub fn strongest_in(values: &[u64], start: usize, end: usize) -> (r: Option<usize>)
    requires
        start <= end <= values@.len(),
    ensures
        match r {
            Some(i) => first_largest(values@, start as int, end as int, i as int)
                && positive(values@, i as int),
            None => forall|k: int| start <= k < end ==> !positive(values@, k),
        },
{
    let mut best: Option<usize> = None;
    let mut best_rank: i64 = 0;
    let mut i = start;
    while i < end
        invariant
            start <= i <= end <= values@.len(),
            best_rank >= 0,
            match best {
                Some(b) => first_largest(values@, start as int, i as int, b as int)
                    && rank(values@[b as int]) == best_rank && best_rank > 0,
                None => best_rank == 0 && forall|k: int|
                    start <= k < i && !is_nan(#[trigger] values@[k]) ==> rank(values@[k]) <= 0,
            },
        decreases end - i,
    {
        let v = values[i];
        if !nan(v) {
            let r = rank_of(v);
            if r > best_rank {
                best = Some(i);
                best_rank = r;
            }
        }
        i = i + 1;
    }
    best
}

/// The first position holding the largest value of the whole sequence, NaN
/// entries passed over; `0` when the sequence holds no number.
pub fn first_maximum(values: &[u64]) -> (r: usize)
    ensures
        (exists|k: int| 0 <= k < values@.len() && !is_nan(#[trigger] values@[k]))
            ==> first_largest(values@, 0, values@.len() as int, r as int),
        (forall|k: int| 0 <= k < values@.len() ==> is_nan(#[trigger] values@[k])) ==> r == 0,
{
    let mut best: Option<usize> = None;
    let mut i: usize = 0;
    while i < values.len()
        invariant
            i <= values@.len(),
            match best {
                Some(b) => first_largest(values@, 0, i as int, b as int),
                None => forall|k: int| 0 <= k < i ==> is_nan(#[trigger] values@[k]),
            },
        decreases values@.len() - i,
    {
        let v = values[i];
        if !nan(v) {
            match best {
                Some(b) => {
                    if exceeds(v, values[b]) {
                        best = Some(i);
                    }
                },
                None => {
                    best = Some(i);
                },
            }
        }
        i = i + 1;
    }
    match best {
        Some(b) => b,
        None => 0,
    }
}

} // verus!
