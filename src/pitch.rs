//! Decisions of the three pitch estimators: which algorithm runs, which lags
//! and bins each one may look at, where it finds its peak or its dip, and when
//! it reports the sentinel `0.0` ("no pitch") instead of an estimate.
use vstd::prelude::*;
use crate::binary64::{all_zero, exceeds, greater, is_nan, silent};
use crate::peak::{first_largest, first_maximum, positive, strongest_in};

verus! {

/// The pitch estimation algorithms.
#[derive(Clone, Copy, Debug, PartialEq, Eq, Structural)]
pub enum PitchAlgorithm {
    Autocorrelation,
    Yin,
    Hps,
}

impl Default for PitchAlgorithm {
    fn default() -> (r: Self)
        ensures
            r == PitchAlgorithm::Autocorrelation,
    {
        PitchAlgorithm::Autocorrelation
    }
}

/// The algorithm that runs when `requested` is asked for.
pub open spec fn chosen(requested: Option<PitchAlgorithm>) -> PitchAlgorithm {
    match requested {
        Some(a) => a,
        None => PitchAlgorithm::Autocorrelation,
    }
}

/// The algorithm to run: the one requested, else autocorrelation.
pub fn resolve_algorithm(requested: Option<PitchAlgorithm>) -> (r: PitchAlgorithm)
    ensures
        r == chosen(requested),
{
    match requested {
        Some(a) => a,
        None => PitchAlgorithm::Autocorrelation,
    }
}

/// Asking for no algorithm runs exactly what asking for autocorrelation runs,
/// so the two estimates agree on every frame.
pub proof fn lemma_unspecified_is_autocorrelation()
    ensures
        chosen(None) == chosen(Some(PitchAlgorithm::Autocorrelation)),
{
}

/// Frequency bounds of the estimators, in Hz.
#[derive(Clone, Copy, Debug, PartialEq, Eq, Structural)]
pub struct PitchConfig {
    /// Lowest pitch of the autocorrelation search; it also fixes the window.
    pub min_pitch: u32,
    /// Highest pitch of the autocorrelation search.
    pub max_pitch: u32,
    /// Lowest pitch of the YIN search: the largest lag is `sample_rate / yin_min_pitch`.
    pub yin_min_pitch: u32,
    /// Highest pitch of the YIN search: the smallest lag is `sample_rate / yin_max_pitch`.
    pub yin_max_pitch: u32,
}

impl Default for PitchConfig {
    fn default() -> (r: Self)
        ensures
            r.min_pitch == 80,
            r.max_pitch == 1000,
            r.yin_min_pitch == 50,
            r.yin_max_pitch == 500,
    {
        PitchConfig { min_pitch: 80, max_pitch: 1000, yin_min_pitch: 50, yin_max_pitch: 500 }
    }
}

/// The autocorrelation window and the lags `[start, end)` searched in it.
#[derive(Clone, Copy, Debug, PartialEq, Eq, Structural)]
pub struct LagSearch {
    pub window: usize,
    pub start: usize,
    pub end: usize,
}

/// Length of the autocorrelation window.
pub open spec fn window_of(sample_rate: int, min_pitch: int) -> int {
    sample_rate / min_pitch
}

/// Position of `pitch` within a window of `window` lags.
pub open spec fn lag_bin(pitch: int, window: int, sample_rate: int) -> int {
    pitch * window / sample_rate
}

/// Both ends of the search fall inside the window.
pub open spec fn search_fits(sample_rate: int, min_pitch: int, max_pitch: int) -> bool {
    &&& min_pitch > 0
    &&& sample_rate > 0
    &&& lag_bin(min_pitch, window_of(sample_rate, min_pitch), sample_rate) < window_of(
        sample_rate,
        min_pitch,
    )
    &&& lag_bin(max_pitch, window_of(sample_rate, min_pitch), sample_rate) < window_of(
        sample_rate,
        min_pitch,
    )
}

/// The window and lag range of the autocorrelation estimator; `None` (no
/// pitch) when either end of the range falls outside the window.
pub fn autocorrelation_search(sample_rate: u32, config: &PitchConfig) -> (r: Option<LagSearch>)
    ensures
        r.is_some() == search_fits(
            sample_rate as int,
            config.min_pitch as int,
            config.max_pitch as int,
        ),
        match r {
            Some(s) => {
                let w = window_of(sample_rate as int, config.min_pitch as int);
                &&& s.window == w
                &&& s.start == lag_bin(config.min_pitch as int, w, sample_rate as int)
                &&& s.end == lag_bin(config.max_pitch as int, w, sample_rate as int)
            },
            None => true,
        },
{
    if config.min_pitch == 0 || sample_rate == 0 {
        return None;
    }
    let window: u32 = sample_rate / config.min_pitch;
    let w = window as u64;
    let sr = sample_rate as u64;
    let lo = config.min_pitch as u64;
    let hi = config.max_pitch as u64;
    assert(lo * w <= 0xffff_ffffu64 * 0xffff_ffffu64) by (nonlinear_arith)
        requires
            lo <= 0xffff_ffffu64,
            w <= 0xffff_ffffu64,
    ;
    assert(hi * w <= 0xffff_ffffu64 * 0xffff_ffffu64) by (nonlinear_arith)
        requires
            hi <= 0xffff_ffffu64,
            w <= 0xffff_ffffu64,
    ;
    let start = lo * w / sr;
    let end = hi * w / sr;
    if start >= w || end >= w {
        return None;
    }
    Some(LagSearch { window: window as usize, start: start as usize, end: end as usize })
}

/// The peak lag of an autocorrelation, with the neighbours `(lag - 1, lag + 1)`
/// for parabolic refinement when both exist; at lag 0 there is no left
/// neighbour and the peak is not refined.
#[derive(Clone, Copy, Debug, PartialEq, Eq, Structural)]
pub struct Peak {
    pub lag: usize,
    pub neighbours: Option<Neighbours>,
}

/// The lags on either side of a peak.
#[derive(Clone, Copy, Debug, PartialEq, Eq, Structural)]
pub struct Neighbours {
    pub before: usize,
    pub after: usize,
}

/// `r` is the outcome of the autocorrelation peak search over `values`, the
/// autocorrelation of `frame`.
pub open spec fn peak_found(frame: Seq<u64>, values: Seq<u64>, search: LagSearch, r: Option<Peak>) -> bool {
    if all_zero(frame) || search.start >= values.len() || search.end >= values.len() {
        r is None
    } else {
        match r {
            Some(p) => {
                &&& first_largest(values, search.start as int, search.end as int, p.lag as int)
                &&& positive(values, p.lag as int)
                &&& p.neighbours == (if p.lag == 0 {
                    None
                } else {
                    Some(Neighbours { before: (p.lag - 1) as usize, after: (p.lag + 1) as usize })
                })
            },
            None => forall|k: int| search.start <= k < search.end ==> !positive(values, k),
        }
    }
}

/// The first lag of the search range holding the largest value of `values`,
/// the autocorrelation of `frame`, with its neighbours. `None` (no pitch) when
/// the frame is silent, when a bound of the range falls outside `values`, and
/// when no value of the range is above `0.0`, an empty range included.
pub fn autocorrelation_peak(frame: &[u64], values: &[u64], search: &LagSearch) -> (r: Option<Peak>)
    ensures
        peak_found(frame@, values@, *search, r),
{
    if silent(frame) || search.start >= values.len() || search.end >= values.len()
        || search.start > search.end {
        return None;
    }
    match strongest_in(values, search.start, search.end) {
        Some(lag) => {
            let neighbours = if lag == 0 {
                None
            } else {
                Some(Neighbours { before: lag - 1, after: lag + 1 })
            };
            Some(Peak { lag, neighbours })
        },
        None => None,
    }
}

/// The lags `[tau_min, tau_max)` of the YIN difference function.
#[derive(Clone, Copy, Debug, PartialEq, Eq, Structural)]
pub struct YinRange {
    pub tau_min: usize,
    pub tau_max: usize,
}

/// The YIN lag range; `None` (no pitch) when a bound of the configuration is `0`.
pub fn yin_range(sample_rate: u32, config: &PitchConfig) -> (r: Option<YinRange>)
    ensures
        r.is_some() == (config.yin_min_pitch > 0 && config.yin_max_pitch > 0),
        match r {
            Some(y) => y.tau_min == sample_rate / config.yin_max_pitch && y.tau_max == sample_rate
                / config.yin_min_pitch,
            None => true,
        },
{
    if config.yin_min_pitch == 0 || config.yin_max_pitch == 0 {
        return None;
    }
    Some(
        YinRange {
            tau_min: (sample_rate / config.yin_max_pitch) as usize,
            tau_max: (sample_rate / config.yin_min_pitch) as usize,
        },
    )
}


/// Every lag of `[from, to)` lies above the threshold.
pub open spec fn above_all(yin: Seq<u64>, threshold: u64, from: int, to: int) -> bool {
    forall|k: int| from <= k < to ==> greater(#[trigger] yin[k], threshold)
}

/// `r` is where the YIN walk over the running sum `yin` of `frame` stops.
pub open spec fn dip_found(frame: Seq<u64>, yin: Seq<u64>, threshold: u64, tau_min: int, r: Option<usize>) -> bool {
    if all_zero(frame) {
        r is None
    } else {
        match r {
            Some(t) => {
                &&& tau_min <= t
                &&& 1 <= t
                &&& t + 1 < yin.len()
                &&& !greater(yin[t as int], threshold)
                &&& above_all(yin, threshold, tau_min, t as int)
            },
            None => above_all(yin, threshold, tau_min, yin.len() - 1) || (tau_min == 0
                && yin.len() >= 2 && !greater(yin[0], threshold)),
        }
    }
}

/// The lag where the YIN walk over `yin`, the running sum of the difference
/// function of `frame`, stops, if it may be refined there.
///
/// The walk starts at `tau_min` and moves up while the running sum stays above
/// `threshold`, stopping at the first lag that does not, or at the last lag but
/// one. The result is `None` (no pitch) when the frame is silent, when the walk
/// reaches that last lag but one, and when the stop has no neighbour on either
/// side to refine with.
pub fn yin_dip(frame: &[u64], yin: &[u64], threshold: u64, tau_min: usize) -> (r: Option<usize>)
    ensures
        dip_found(frame@, yin@, threshold, tau_min as int, r),
{
    if silent(frame) {
        return None;
    }
    let len = yin.len();
    if len < 2 {
        return None;
    }
    let last = len - 1;
    let mut tau = tau_min;
    while tau < last && exceeds(yin[tau], threshold)
        invariant
            last == yin@.len() - 1,
            tau_min <= tau,
            above_all(yin@, threshold, tau_min as int, tau as int),
        decreases yin@.len() - tau,
    {
        tau = tau + 1;
    }
    if tau >= last || tau == 0 {
        return None;
    }
    Some(tau)
}

/// Highest frequency the harmonic product spectrum considers: half the sample rate.
pub open spec fn max_frequency_of(sample_rate: int) -> int {
    sample_rate / 2
}

/// Length of the spectrum downsampled by `harmonic`: each of its bins sums
/// `harmonic` consecutive bins of a spectrum of `spectrum_len` bins, all of
/// which must exist.
pub open spec fn band_len(spectrum_len: int, sample_rate: int, harmonic: int) -> int {
    let by_frequency = max_frequency_of(sample_rate) / harmonic;
    let by_spectrum = spectrum_len / harmonic;
    if by_frequency <= by_spectrum {
        by_frequency
    } else {
        by_spectrum
    }
}

/// The downsampled length for `harmonic`.
pub fn harmonic_band_len(spectrum_len: usize, sample_rate: u32, harmonic: usize) -> (r: usize)
    requires
        harmonic >= 1,
    ensures
        r == band_len(spectrum_len as int, sample_rate as int, harmonic as int),
        r * harmonic <= spectrum_len,
{
    let by_frequency = (sample_rate / 2) as usize / harmonic;
    let by_spectrum = spectrum_len / harmonic;
    let r = if by_frequency <= by_spectrum {
        by_frequency
    } else {
        by_spectrum
    };
    assert(r * harmonic <= spectrum_len) by (nonlinear_arith)
        requires
            r <= spectrum_len / harmonic,
            harmonic >= 1,
    ;
    r
}


/// `r` is the outcome of the peak search over `values`, the harmonic product
/// spectrum of `frame`.
pub open spec fn hps_peak_found(frame: Seq<u64>, values: Seq<u64>, sample_rate: int, r: Option<usize>) -> bool {
    &&& r.is_some() == (max_frequency_of(sample_rate) > 0 && !all_zero(frame))
    &&& match r {
        Some(i) => {
            &&& (exists|k: int| 0 <= k < values.len() && !is_nan(#[trigger] values[k]))
                ==> first_largest(values, 0, values.len() as int, i as int)
            &&& (forall|k: int| 0 <= k < values.len() ==> is_nan(#[trigger] values[k])) ==> i == 0
        },
        None => true,
    }
}

/// The bin of `values`, the harmonic product spectrum of `frame`, that holds
/// its largest value (the first such bin; `0` when it holds no number), or
/// `None` (no pitch) when the frame is silent or the sample rate leaves no
/// frequency range to scale the bin by.
pub fn hps_peak(frame: &[u64], values: &[u64], sample_rate: u32) -> (r: Option<usize>)
    ensures
        hps_peak_found(frame@, values@, sample_rate as int, r),
{
    if sample_rate / 2 == 0 || silent(frame) {
        return None;
    }
    Some(first_maximum(values))
}

/// On a silent frame every estimator reports no pitch, whatever the values
/// computed from the frame: the autocorrelation finds no peak, the YIN walk
/// no dip, and the harmonic product spectrum no bin.
pub proof fn lemma_silent_frame(
    frame: Seq<u64>,
    autocorrelation: Seq<u64>,
    search: LagSearch,
    peak: Option<Peak>,
    yin: Seq<u64>,
    threshold: u64,
    tau_min: int,
    dip: Option<usize>,
    product: Seq<u64>,
    sample_rate: int,
    bin: Option<usize>,
)
    requires
        all_zero(frame),
        peak_found(frame, autocorrelation, search, peak),
        dip_found(frame, yin, threshold, tau_min, dip),
        hps_peak_found(frame, product, sample_rate, bin),
    ensures
        peak is None,
        dip is None,
        bin is None,
{
}

} // verus!
