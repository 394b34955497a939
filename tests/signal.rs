use caliber::signal::{sample_count, Chirp, ExcitationSignal, Phase, SignalError, Wave};
use std::f64::consts::PI;

fn sine(p: Phase) -> f32 {
    (2.0 * PI * p.num as f64 / p.den as f64).sin() as f32
}

#[test]
fn sample_count_rounds_to_nearest() {
    assert_eq!(sample_count(48000, 2000), 96000);
    assert_eq!(sample_count(44100, 1000), 44100);
    assert_eq!(sample_count(44100, 10), 441);
    assert_eq!(sample_count(1000, 1), 1);
    assert_eq!(sample_count(1500, 1), 2);
    assert_eq!(sample_count(1499, 1), 1);
    assert_eq!(sample_count(499, 1), 0);
}

#[test]
fn chirp_100_to_1000_hz_over_two_seconds() {
    let chirp = Chirp::new(48000, 2000, 100, 1000, sine).unwrap();
    assert_eq!(chirp.samples().len(), 96000);
    assert_eq!(chirp.frequency_at_millihertz(0), 100_000);
    let last = chirp.frequency_at_millihertz(95999) as i64;
    assert!((last - 1_000_000).abs() <= 10);
    assert_eq!(chirp.frequency_at_millihertz(48000), 550_000);
    assert_eq!(chirp.start_freq(), 100);
    assert_eq!(chirp.end_freq(), 1000);
    assert_eq!(chirp.duration_ms(), 2000);
    assert_eq!(chirp.sample_rate(), 48000);
    assert_eq!(chirp.channels(), 1);
    assert_eq!(chirp.total_duration_nanos(), 2_000_000_000);
}

#[test]
fn falling_chirp_sweeps_down() {
    let chirp = Chirp::new(8000, 1000, 1000, 200, sine).unwrap();
    assert_eq!(chirp.frequency_at_millihertz(0), 1_000_000);
    assert_eq!(chirp.frequency_at_millihertz(4000), 600_000);
}

#[test]
fn chirp_samples_follow_the_phase() {
    let chirp = Chirp::new(8000, 1000, 1000, 1000, sine).unwrap();
    // A constant 1000 Hz sweep at 8000 Hz turns an eighth of a cycle
    // per sample.
    let s = chirp.samples();
    assert!(s[0].abs() < 1e-6);
    assert!((s[2] - 1.0).abs() < 1e-6);
    assert!(s[4].abs() < 1e-5);
    assert!(s.iter().all(|x| (-1.0..=1.0).contains(x)));
}

#[test]
fn wave_has_rounded_count_and_unit_samples() {
    let wave = Wave::new(192000, 441, 5000, sine).unwrap();
    assert_eq!(wave.samples().len(), 960000);
    assert!(wave.samples().iter().all(|x| (-1.0..=1.0).contains(x)));
    assert_eq!(wave.frequency(), 441);
    assert_eq!(wave.duration_ms(), 5000);
    assert_eq!(wave.sample_rate(), 192000);
    assert_eq!(wave.channels(), 1);
    assert_eq!(wave.total_duration_nanos(), 5_000_000_000);
}

#[test]
fn wave_quarter_cycle_per_sample() {
    let wave = Wave::new(48000, 12000, 1, sine).unwrap();
    let s = wave.samples();
    assert_eq!(s.len(), 48);
    assert!(s[0].abs() < 1e-6);
    assert!((s[1] - 1.0).abs() < 1e-6);
    assert!((s[3] + 1.0).abs() < 1e-6);
}

#[test]
fn wave_phase_is_exact_fraction() {
    let wave = Wave::new(1000, 3, 1000, |p: Phase| (p.num, p.den)).unwrap();
    assert_eq!(wave.samples()[0], (0, 1000));
    assert_eq!(wave.samples()[400], (200, 1000));
}

#[test]
fn chirp_phase_is_exact_fraction() {
    let chirp = Chirp::new(10, 1000, 0, 10, |p: Phase| (p.num, p.den)).unwrap();
    // f(t) = 10 t, so sample 5 (t = 0.5 s) has turned 2.5 cycles.
    let (num, den) = chirp.samples()[5];
    assert_eq!(den, 100_000);
    assert_eq!(num * 2, den);
}

#[test]
fn generation_errors() {
    assert_eq!(Wave::new(0, 440, 1000, sine).err(), Some(SignalError::InvalidSampleRate));
    assert_eq!(Wave::new(44100, 440, 0, sine).err(), Some(SignalError::InvalidDuration));
    assert_eq!(Wave::new(1, 440, 1, sine).err(), Some(SignalError::EmptySignal));
    assert_eq!(
        Wave::new(u32::MAX, 440, u32::MAX, sine).err(),
        Some(SignalError::TooLong)
    );
    assert_eq!(Chirp::new(0, 1000, 1, 2, sine).err(), Some(SignalError::InvalidSampleRate));
    assert_eq!(Chirp::new(48000, 0, 1, 2, sine).err(), Some(SignalError::InvalidDuration));
    assert_eq!(Chirp::new(100, 4, 1, 2, sine).err(), Some(SignalError::EmptySignal));
    assert_eq!(
        Chirp::new(u32::MAX, u32::MAX, 1, 2, sine).err(),
        Some(SignalError::TooLong)
    );
}

#[test]
fn recording_becomes_a_chirp() {
    let samples: Vec<f32> = (0..66150).map(|i| i as f32).collect();
    let chirp = Chirp::from_recording(samples, 44100).unwrap();
    assert_eq!(chirp.duration_ms(), 1500);
    assert_eq!(chirp.start_freq(), 0);
    assert_eq!(chirp.end_freq(), 0);
    assert_eq!(chirp.sample_rate(), 44100);
    assert_eq!(chirp.frequency_at_millihertz(66149), 0);
}

#[test]
fn recording_errors() {
    assert_eq!(
        Chirp::from_recording(vec![0.0f32; 10], 0).err(),
        Some(SignalError::InvalidSampleRate)
    );
    assert_eq!(
        Chirp::<f32>::from_recording(Vec::new(), 44100).err(),
        Some(SignalError::EmptySignal)
    );
}

#[test]
fn short_recordings_are_accepted() {
    let one = Chirp::from_recording(vec![0.5f32], 48000).unwrap();
    assert_eq!(one.duration_ms(), 1);
    assert_eq!(one.samples().len(), 1);
    let short = Chirp::from_recording(vec![0.0f32; 44], 44100).unwrap();
    assert_eq!(short.duration_ms(), 1);
    assert_eq!(short.current_frame_len(), 44);
}

#[test]
fn recording_duration_rounds_up() {
    let c = Chirp::from_recording(vec![0.0f32; 44101], 44100).unwrap();
    assert_eq!(c.duration_ms(), 1001);
    let exact = Chirp::from_recording(vec![0.0f32; 44100], 44100).unwrap();
    assert_eq!(exact.duration_ms(), 1000);
}

#[test]
fn chirp_is_single_pass() {
    let mut chirp = Chirp::from_recording(vec![1i16, 2, 3], 1000).unwrap();
    assert_eq!(chirp.current_frame_len(), 3);
    assert_eq!(chirp.next(), Some(1));
    assert_eq!(chirp.next(), Some(2));
    assert_eq!(chirp.current_frame_len(), 1);
    assert_eq!(chirp.next(), Some(3));
    assert_eq!(chirp.next(), None);
    assert_eq!(chirp.next(), None);
    assert_eq!(chirp.current_frame_len(), 0);
    assert_eq!(chirp.samples().len(), 3);
}

#[test]
fn wave_is_single_pass() {
    let mut wave = Wave::new(2000, 500, 1, |p: Phase| p.num).unwrap();
    assert_eq!(wave.current_frame_len(), 2);
    assert_eq!(wave.next(), Some(0));
    assert_eq!(wave.next(), Some(500));
    assert_eq!(wave.next(), None);
    assert_eq!(wave.current_frame_len(), 0);
}

#[test]
fn excitation_signal_plays_either_kind() {
    let mut s = ExcitationSignal::Wave(Wave::new(4, 1, 1000, |p: Phase| p.num).unwrap());
    assert_eq!(s.duration_ms(), 1000);
    assert_eq!(s.sample_rate(), 4);
    assert_eq!(s.channels(), 1);
    assert_eq!(s.total_duration_nanos(), 1_000_000_000);
    assert_eq!(s.current_frame_len(), 4);
    assert_eq!(s.next(), Some(0));
    assert_eq!(s.next(), Some(1));
    assert_eq!(s.current_frame_len(), 2);

    let mut c = ExcitationSignal::Chirp(Chirp::from_recording(vec![5i16, 6], 1000).unwrap());
    assert_eq!(c.duration_ms(), 2);
    assert_eq!(c.next(), Some(5));
    assert_eq!(c.next(), Some(6));
    assert_eq!(c.next(), None);
    assert_eq!(c.current_frame_len(), 0);
}
