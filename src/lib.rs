//! Integer decision logic behind per-frame spectral features and pitch
//! estimation: lag and bin windows, sentinel guards, peak and dip searches
//! over binary64 samples given as bit patterns, and triangular mel filter
//! weights held as exact ratios.
use vstd::prelude::*;

pub mod binary64;
pub mod cepstrum;
pub mod mel;
pub mod peak;
pub mod pitch;
pub mod spectral;

verus! {

} // verus!
