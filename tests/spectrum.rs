use caliber::spectrum::{
    freq_of_resonance, frequency_resolution_millihertz, AnalysisError, Planner, Resonance,
};
use rustfft::num_complex::Complex;
use rustfft::{FftPlanner, FftPlannerScalar};
use std::f32::consts::PI;

fn generate_sine_wave(frequency: f32, sample_rate: f32, duration: f32) -> Vec<f32> {
    let sample_count = (sample_rate * duration) as usize;
    (0..sample_count)
        .map(|i| (2.0 * PI * frequency * i as f32 / sample_rate).sin())
        .collect()
}

fn spectrum(samples: &[f32], planner: Planner) -> Vec<Complex<f32>> {
    let mut buf: Vec<Complex<f32>> = samples.iter().map(|&x| Complex::new(x, 0.0)).collect();
    let fft = match planner {
        Planner::FftPlannerScalar => FftPlannerScalar::new().plan_fft_forward(buf.len()),
        _ => FftPlanner::new().plan_fft_forward(buf.len()),
    };
    fft.process(&mut buf);
    buf
}

fn magnitude_bits(samples: &[f32], planner: Planner) -> Vec<u32> {
    spectrum(samples, planner)
        .iter()
        .map(|c| c.norm().to_bits())
        .collect()
}

fn resonance_hz(samples: &[f32], sample_rate: u32, planner: Planner) -> f32 {
    let res = freq_of_resonance(&magnitude_bits(samples, planner), sample_rate).unwrap();
    res.frequency_millihertz() as f32 / 1000.0
}

#[test]
fn test_sine_wave_fft_peak() {
    let sample_rate = 44100.0;
    let frequency = 440.0;
    let duration = 1.0;

    let samples = generate_sine_wave(frequency, sample_rate, duration);
    let calculated_frequency = resonance_hz(&samples, 44100, Planner::or_default(None));
    assert!(
        (calculated_frequency - frequency).abs() < 1.0,
        "Expected frequency: {}, but got: {}",
        frequency,
        calculated_frequency
    );
}

#[test]
fn spectrum_of_real_input_mirrors() {
    let samples = generate_sine_wave(440.0, 44100.0, 1.0);
    let fft_output = spectrum(&samples, Planner::FftPlanner);
    let n = fft_output.len();
    for i in 1..(n / 2) {
        let left = fft_output[i];
        let right = fft_output[n - i];
        assert!((left.re - right.re).abs() < 1e-2, "Real parts are not symmetric");
        assert!((left.im + right.im).abs() < 1e-2, "Imaginary parts are not symmetric");
    }
}

#[test]
fn test_frequency_bin_resolution() {
    let sample_rate: u32 = 44100;
    let fft_length: usize = 1024;
    let freq_bin_size = frequency_resolution_millihertz(sample_rate, fft_length) as f32 / 1000.0;
    assert!(
        (freq_bin_size - 43.07).abs() < 0.01,
        "Frequency bin size should be approximately 43.07 Hz, but got: {}",
        freq_bin_size
    );
}

#[test]
fn exact_bin_sine_is_reported_exactly() {
    // 1000 samples at 8000 Hz: bins are 8 Hz wide, and 440 Hz is bin 55.
    let samples = generate_sine_wave(440.0, 8000.0, 0.125);
    assert_eq!(samples.len(), 1000);
    let res = freq_of_resonance(&magnitude_bits(&samples, Planner::FftPlanner), 8000).unwrap();
    assert_eq!(res.bin, 55);
    assert_eq!(res.frequency_millihertz(), 440_000);
    assert_eq!(res.resolution_millihertz(), 8000);
}

#[test]
fn off_bin_sine_is_within_one_bin() {
    // 1000 Hz at 8000 Hz over 1000 samples falls between bins 8 Hz apart
    // once shifted by 3 Hz.
    let samples = generate_sine_wave(1003.0, 8000.0, 0.125);
    let res = freq_of_resonance(&magnitude_bits(&samples, Planner::FftPlanner), 8000).unwrap();
    let got = res.frequency_millihertz() as i64;
    assert!((got - 1_003_000).abs() <= res.resolution_millihertz() as i64);
}

#[test]
fn backends_agree() {
    let samples = generate_sine_wave(1348.0, 48000.0, 0.5);
    let generic = resonance_hz(&samples, 48000, Planner::FftPlanner);
    let scalar = resonance_hz(&samples, 48000, Planner::FftPlannerScalar);
    assert!((generic - scalar).abs() <= 1e-3 * generic.abs());
}

#[test]
fn sine_440_at_44100_for_one_second() {
    let samples = generate_sine_wave(440.0, 44100.0, 1.0);
    let res = freq_of_resonance(&magnitude_bits(&samples, Planner::FftPlanner), 44100).unwrap();
    assert_eq!(res.num_samples, 44100);
    let hz = res.frequency_millihertz() as f32 / 1000.0;
    assert!((hz - 440.0).abs() < 1.0);
}

#[test]
fn empty_buffer_is_an_error() {
    assert_eq!(freq_of_resonance(&Vec::new(), 44100), Err(AnalysisError::EmptyBuffer));
}

#[test]
fn zero_rate_is_an_error() {
    assert_eq!(freq_of_resonance(&vec![0, 1, 2, 3], 0), Err(AnalysisError::InvalidSampleRate));
}

#[test]
fn single_sample_is_too_short() {
    assert_eq!(freq_of_resonance(&vec![1.0f32.to_bits()], 100), Err(AnalysisError::TooShort));
}

#[test]
fn nan_bins_are_never_chosen() {
    let nan = f32::NAN.to_bits();
    let mags = vec![nan, 2.0f32.to_bits(), nan, 0.5f32.to_bits(), 9.0f32.to_bits(), 9.0f32.to_bits()];
    let res = freq_of_resonance(&mags, 600).unwrap();
    assert_eq!(res.bin, 1);
    assert_eq!(res.frequency_millihertz(), 100_000);
}

#[test]
fn all_nan_is_an_error() {
    let nan = f32::NAN.to_bits();
    let mags = vec![nan, (-f32::NAN).to_bits(), 1.0f32.to_bits(), 1.0f32.to_bits()];
    assert_eq!(freq_of_resonance(&mags, 100), Err(AnalysisError::NoFiniteMagnitude));
}

#[test]
fn ties_go_to_the_first_bin() {
    let mags = vec![1.0f32.to_bits(), 3.0f32.to_bits(), 3.0f32.to_bits(), 0.0f32.to_bits(), 0, 0, 0, 0];
    let res = freq_of_resonance(&mags, 800).unwrap();
    assert_eq!(res, Resonance { bin: 1, num_samples: 8, sample_rate: 800 });
}

#[test]
fn upper_half_is_not_searched() {
    let mags = vec![1.0f32.to_bits(), 2.0f32.to_bits(), 50.0f32.to_bits(), 50.0f32.to_bits()];
    let res = freq_of_resonance(&mags, 400).unwrap();
    assert_eq!(res.bin, 1);
}

#[test]
fn infinity_outranks_finite_values() {
    let mags = vec![7.0f32.to_bits(), f32::INFINITY.to_bits(), 0, 0];
    assert_eq!(freq_of_resonance(&mags, 400).unwrap().bin, 1);
}

#[test]
fn default_planner_is_generic() {
    assert_eq!(Planner::or_default(None), Planner::FftPlanner);
    assert_eq!(Planner::or_default(Some(Planner::FftPlannerScalar)), Planner::FftPlannerScalar);
}
