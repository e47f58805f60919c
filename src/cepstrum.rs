//! Configuration of the MFCC pipeline and the number of coefficients it keeps.
use vstd::prelude::*;

verus! {

/// Parameters of the MFCC pipeline.
#[derive(Clone, Copy, Debug, PartialEq, Eq, Structural)]
pub struct MfccConfig {
    /// Size of the FFT the filter bank is laid over; the bank spans half of it.
    pub fft_size: usize,
    /// Sample rate of the frames, in Hz.
    pub sample_rate: usize,
    /// Number of mel filters.
    pub num_filters: usize,
}

impl Default for MfccConfig {
    fn default() -> (r: Self)
        ensures
            r.fft_size == 512,
            r.sample_rate == 44100,
            r.num_filters == 40,
    {
        MfccConfig { fft_size: 512, sample_rate: 44100, num_filters: 40 }
    }
}

/// The smaller of two counts.
pub open spec fn min_count(a: int, b: int) -> int {
    if a <= b {
        a
    } else {
        b
    }
}

/// Number of cepstral coefficients returned for `num_cepstrals` requested
/// from a bank of `num_filters` filters: the request, capped at the filter count.
pub fn cepstral_count(num_cepstrals: usize, num_filters: usize) -> (r: usize)
    ensures
        r == min_count(num_cepstrals as int, num_filters as int),
{
    if num_cepstrals <= num_filters {
        num_cepstrals
    } else {
        num_filters
    }
}

} // verus!
