use spectral_pitch::binary64::{exceeds, nan, rank_of, silent};
use spectral_pitch::peak::{first_maximum, strongest_in};
use spectral_pitch::pitch::{
    autocorrelation_peak, autocorrelation_search, harmonic_band_len, hps_peak, resolve_algorithm,
    yin_dip, yin_range, LagSearch, Neighbours, Peak, PitchAlgorithm, PitchConfig, YinRange,
};

fn bits(values: &[f32]) -> Vec<u64> {
    values.iter().map(|&v| (v as f64).to_bits()).collect()
}

/// Bit patterns of a frame that is not silent: `[1.0]`.
const LOUD: [u64; 1] = [0x3ff0_0000_0000_0000];

fn bit(v: f32) -> u64 {
    (v as f64).to_bits()
}

#[test]
fn binary64_order_follows_float_order() {
    let samples = [
        f64::NEG_INFINITY,
        -3.5,
        -1.0,
        -1e-300,
        -0.0,
        0.0,
        5e-324,
        1e-30,
        0.5,
        2.0,
        f64::MAX,
        f64::INFINITY,
    ];
    for a in samples.iter() {
        for b in samples.iter() {
            assert_eq!(exceeds(a.to_bits(), b.to_bits()), a > b, "{} > {}", a, b);
        }
    }
    assert_eq!(rank_of((-0.0f64).to_bits()), 0);
    assert_eq!(rank_of(0.0f64.to_bits()), 0);
    assert!(rank_of((-1.0f64).to_bits()) < 0);
    assert!(exceeds(bit(0.25), bit(0.125)));
}

#[test]
fn binary64_nan_never_compares() {
    let n = f64::NAN.to_bits();
    assert!(nan(n));
    assert!(nan(bit(f32::NAN)));
    assert!(nan((-f64::NAN).to_bits()));
    assert!(!nan(f64::INFINITY.to_bits()));
    assert!(!nan(f64::NEG_INFINITY.to_bits()));
    assert!(!exceeds(n, 1.0f64.to_bits()));
    assert!(!exceeds(1.0f64.to_bits(), n));
}

#[test]
fn unspecified_algorithm_is_autocorrelation() {
    assert_eq!(resolve_algorithm(None), PitchAlgorithm::Autocorrelation);
    assert_eq!(resolve_algorithm(None), resolve_algorithm(Some(PitchAlgorithm::Autocorrelation)));
    assert_eq!(resolve_algorithm(Some(PitchAlgorithm::Yin)), PitchAlgorithm::Yin);
    assert_eq!(resolve_algorithm(Some(PitchAlgorithm::Hps)), PitchAlgorithm::Hps);
    assert_eq!(PitchAlgorithm::default(), PitchAlgorithm::Autocorrelation);
}

#[test]
fn default_pitch_bounds() {
    let c = PitchConfig::default();
    assert_eq!((c.min_pitch, c.max_pitch, c.yin_min_pitch, c.yin_max_pitch), (80, 1000, 50, 500));
}

#[test]
fn autocorrelation_search_at_44100() {
    let s = autocorrelation_search(44100, &PitchConfig::default());
    assert_eq!(s, Some(LagSearch { window: 551, start: 0, end: 12 }));
}

#[test]
fn autocorrelation_search_out_of_window() {
    let wide = PitchConfig { max_pitch: 50_000, ..PitchConfig::default() };
    assert_eq!(autocorrelation_search(44100, &wide), None);
    assert_eq!(autocorrelation_search(0, &PitchConfig::default()), None);
    assert_eq!(autocorrelation_search(40, &PitchConfig::default()), None);
    let zero = PitchConfig { min_pitch: 0, ..PitchConfig::default() };
    assert_eq!(autocorrelation_search(44100, &zero), None);
}

#[test]
fn autocorrelation_peak_first_of_equal_maxima() {
    let frame = bits(&[0.5, -0.25]);
    let values = bits(&[9.0, 1.0, 3.0, 5.0, 5.0, 2.0, 0.0]);
    let search = LagSearch { window: 7, start: 1, end: 6 };
    assert_eq!(
        autocorrelation_peak(&frame, &values, &search),
        Some(Peak { lag: 3, neighbours: Some(Neighbours { before: 2, after: 4 }) })
    );
}

#[test]
fn autocorrelation_peak_at_lag_zero_is_not_refined() {
    let frame = bits(&[1.0]);
    let values = bits(&[4.0, 1.0, 0.5]);
    let search = LagSearch { window: 3, start: 0, end: 2 };
    assert_eq!(
        autocorrelation_peak(&frame, &values, &search),
        Some(Peak { lag: 0, neighbours: None })
    );
}

#[test]
fn autocorrelation_peak_bounds_outside_values() {
    let frame = bits(&[1.0]);
    let values = bits(&[4.0, 1.0, 0.5]);
    assert_eq!(autocorrelation_peak(&frame, &values, &LagSearch { window: 3, start: 0, end: 3 }), None);
    assert_eq!(autocorrelation_peak(&frame, &values, &LagSearch { window: 3, start: 5, end: 1 }), None);
    assert_eq!(autocorrelation_peak(&frame, &values, &LagSearch { window: 3, start: 2, end: 1 }), None);
}

#[test]
fn autocorrelation_peak_silent_frame() {
    let frame = bits(&[0.0; 1000]);
    let values = bits(&[0.0; 551]);
    let search = LagSearch { window: 551, start: 0, end: 12 };
    assert_eq!(autocorrelation_peak(&frame, &values, &search), None);
    let frame = bits(&[0.0, -0.0]);
    let values = bits(&[2.0, 1.0, 0.5]);
    assert_eq!(autocorrelation_peak(&frame, &values, &LagSearch { window: 3, start: 0, end: 2 }), None);
    let loud = bits(&[1.0, -1.0]);
    let negative = bits(&[-1.0, -2.0, 0.0, -0.5]);
    assert_eq!(autocorrelation_peak(&loud, &negative, &LagSearch { window: 4, start: 0, end: 3 }), None);
}

#[test]
fn silent_frames() {
    assert!(silent(&bits(&[0.0, -0.0, 0.0])));
    assert!(silent(&[]));
    assert!(!silent(&bits(&[0.0, 1e-40, 0.0])));
    assert!(!silent(&bits(&[f32::NAN])));
}

#[test]
fn strongest_in_skips_nan() {
    let values = bits(&[f32::NAN, 2.0, f32::NAN, 3.0]);
    assert_eq!(strongest_in(&values, 0, 4), Some(3));
    assert_eq!(strongest_in(&values, 0, 0), None);
}

#[test]
fn first_maximum_ties_and_empty() {
    assert_eq!(first_maximum(&bits(&[1.0, 7.0, 3.0, 7.0])), 1);
    assert_eq!(first_maximum(&bits(&[-4.0, -2.0, -3.0])), 1);
    assert_eq!(first_maximum(&[]), 0);
    assert_eq!(first_maximum(&bits(&[f32::NAN, f32::NAN])), 0);
    assert_eq!(first_maximum(&bits(&[f32::NAN, 0.5])), 1);
}

#[test]
fn yin_range_at_44100() {
    assert_eq!(
        yin_range(44100, &PitchConfig::default()),
        Some(YinRange { tau_min: 88, tau_max: 882 })
    );
    let zero = PitchConfig { yin_min_pitch: 0, ..PitchConfig::default() };
    assert_eq!(yin_range(44100, &zero), None);
}

#[test]
fn yin_dip_stops_at_first_low_lag() {
    let yin = bits(&[10.0, 10.0, 9.0, 0.5, 0.2, 8.0]);
    assert_eq!(yin_dip(&LOUD, &yin, bit(1.0), 1), Some(3));
    assert_eq!(yin_dip(&LOUD, &yin, bit(1.0), 4), Some(4));
}

#[test]
fn yin_dip_reaching_the_end_is_no_pitch() {
    let yin = bits(&[10.0, 10.0, 9.0, 8.0, 0.5]);
    assert_eq!(yin_dip(&LOUD, &yin, bit(1.0), 1), None);
    assert_eq!(yin_dip(&LOUD, &yin, bit(1.0), 9), None);
    assert_eq!(yin_dip(&LOUD, &[], 0, 0), None);
}

#[test]
fn yin_dip_at_lag_zero_is_no_pitch() {
    let yin = bits(&[0.0, 1.0, 2.0]);
    assert_eq!(yin_dip(&LOUD, &yin, bit(0.0), 0), None);
}

#[test]
fn yin_dip_on_silence_is_no_pitch() {
    let frame = bits(&[0.0; 2000]);
    let yin = bits(&[0.0; 882]);
    assert_eq!(yin_dip(&frame, &yin, bit(0.0), 88), None);
}

#[test]
fn yin_dip_on_constant_frame_stops_at_once() {
    let frame = bits(&[1.0; 100]);
    let yin = bits(&[0.0; 20]);
    assert_eq!(yin_dip(&frame, &yin, bit(0.0), 2), Some(2));
}

#[test]
fn harmonic_lengths() {
    assert_eq!(harmonic_band_len(22050, 44100, 2), 11025);
    assert_eq!(harmonic_band_len(22050, 44100, 3), 7350);
    assert_eq!(harmonic_band_len(22050, 44100, 4), 5512);
    assert_eq!(harmonic_band_len(100, 44100, 3), 33);
    assert_eq!(harmonic_band_len(30000, 44100, 2), 11025);
    assert_eq!(harmonic_band_len(0, 44100, 4), 0);
}

#[test]
fn hps_peak_bins() {
    assert_eq!(hps_peak(&LOUD, &bits(&[0.0, 3.0, 8.0, 8.0, 1.0]), 44100), Some(2));
    assert_eq!(hps_peak(&LOUD, &bits(&[0.0; 16]), 44100), Some(0));
    assert_eq!(hps_peak(&LOUD, &[], 44100), Some(0));
    assert_eq!(hps_peak(&LOUD, &bits(&[1.0, 2.0]), 1), None);
}

#[test]
fn hps_peak_silent_frame() {
    let frame = bits(&[0.0; 64]);
    assert_eq!(hps_peak(&frame, &bits(&[0.0, 1.0, 1.0]), 44100), None);
}
