use rustfft::num_complex::Complex32;
use rustfft::FftPlanner;
use spectrum_native::analyser::{fft_size_for_rate, Analyser, MAX_FFT_SIZE, NEGATIVE_INFINITY};

fn mix(frame: &Vec<u32>) -> u32 {
    let mut mono = 0.0_f32;
    for word in frame {
        mono += f32::from_bits(*word);
    }
    (mono / frame.len() as f32).to_bits()
}

fn magnitudes(window: &Vec<u32>) -> Vec<u32> {
    let size = window.len();
    let mut input = Vec::with_capacity(size);
    for (n, word) in window.iter().enumerate() {
        let phase = 2.0 * std::f32::consts::PI * n as f32 / size as f32;
        let shape = 0.42 - 0.5 * phase.cos() + 0.08 * (2.0 * phase).cos();
        input.push(Complex32::new(f32::from_bits(*word) * shape, 0.0));
    }
    FftPlanner::new().plan_fft_forward(size).process(&mut input);
    let normalizer = 1.0 / size as f32;
    input.iter().take(size / 2).map(|value| (value.norm() * normalizer).to_bits()).collect()
}

fn blend(previous: u32, magnitude: u32, weight: u64) -> u32 {
    let smoothing = weight as f32 / 100_000_000_000.0;
    (smoothing * f32::from_bits(previous) + (1.0 - smoothing) * f32::from_bits(magnitude)).to_bits()
}

fn decibels(magnitude: u32) -> u32 {
    (20.0 * f32::from_bits(magnitude).log10()).to_bits()
}

fn frequency_data(analyser: &mut Analyser, bins: usize, smoothing: u64) -> Vec<f32> {
    analyser
        .frequency_data(bins, smoothing, magnitudes, blend, decibels)
        .into_iter()
        .map(f32::from_bits)
        .collect()
}

fn interleaved(samples: &[f32]) -> Vec<u8> {
    let mut bytes = Vec::new();
    for sample in samples {
        bytes.extend_from_slice(&sample.to_le_bytes());
    }
    bytes
}

/// Samples pass through the analysis unchanged, so that a result shows what
/// was analysed.
fn recorded(analyser: &mut Analyser, bins: usize) -> Vec<u32> {
    analyser.frequency_data(
        bins,
        0,
        |window: &Vec<u32>| window.clone(),
        |_previous, magnitude, _weight| magnitude,
        |magnitude| magnitude,
    )
}

#[test]
fn preserves_browser_fft_size_mapping() {
    assert_eq!(fft_size_for_rate(41_000), 4096);
    assert_eq!(fft_size_for_rate(44_100), 4096);
    assert_eq!(fft_size_for_rate(48_000), 4096);
    assert_eq!(fft_size_for_rate(96_000), 8192);
    assert_eq!(fft_size_for_rate(192_000), 16384);
    assert_eq!(fft_size_for_rate(384_000), 32768);
}

#[test]
fn silence_is_negative_infinity_after_warmup() {
    let mut analyser = Analyser::default();
    let silence = vec![0_u8; 4096 * 2 * 4];
    analyser.push_interleaved_f32le(&silence, 2, 48_000, mix);
    assert!(frequency_data(&mut analyser, 4, 67_000_000_000)
        .iter()
        .all(|value| value.is_infinite()));
}

#[test]
fn reset_discards_previous_samples() {
    let mut analyser = Analyser::default();
    let signal = vec![1_u8; 4096 * 2 * 4];
    analyser.push_interleaved_f32le(&signal, 2, 48_000, mix);
    analyser.reset();
    assert!(frequency_data(&mut analyser, 4, 67_000_000_000)
        .iter()
        .all(|value| value.is_infinite()));
}

#[test]
fn injected_silence_replaces_the_fft_window() {
    let mut analyser = Analyser::default();
    let mut signal = Vec::with_capacity(4096 * 2 * 4);
    for _ in 0..4096 * 2 {
        signal.extend_from_slice(&1.0_f32.to_le_bytes());
    }
    analyser.push_interleaved_f32le(&signal, 2, 48_000, mix);
    analyser.push_silence(4096);
    assert!(frequency_data(&mut analyser, 4, 67_000_000_000)
        .iter()
        .all(|value| value.is_infinite()));
}

#[test]
fn a_steady_signal_shows_at_the_lowest_frequency() {
    let mut analyser = Analyser::default();
    analyser.push_interleaved_f32le(&interleaved(&vec![1.0_f32; 4096]), 1, 48_000, mix);
    let values = frequency_data(&mut analyser, 4, 0);
    // The window's mean is 0.42.
    assert!((values[0] - 20.0 * 0.42_f32.log10()).abs() < 0.01);
    assert!(values[0] > values[1] && values[1] > values[2]);
}

#[test]
fn smoothing_carries_part_of_the_spectrum_over() {
    let mut analyser = Analyser::default();
    analyser.push_interleaved_f32le(&interleaved(&vec![1.0_f32; 4096]), 1, 48_000, mix);
    let first = frequency_data(&mut analyser, 1, 50_000_000_000);
    let second = frequency_data(&mut analyser, 1, 50_000_000_000);
    // Half of 0.42, then three quarters of it.
    assert!((first[0] - 20.0 * 0.21_f32.log10()).abs() < 0.01);
    assert!((second[0] - 20.0 * 0.315_f32.log10()).abs() < 0.01);
}

#[test]
fn smoothing_stays_below_one() {
    let mut analyser = Analyser::default();
    analyser.push_silence(4096);
    let weights = analyser.frequency_data(
        1,
        100_000_000_000,
        |window: &Vec<u32>| window.clone(),
        |_previous, _magnitude, weight| (weight / 1_000_000_000) as u32,
        |magnitude| magnitude,
    );
    assert_eq!(weights, vec![99]);
}

#[test]
fn nothing_is_analysed_before_a_whole_window_is_there() {
    let mut analyser = Analyser::default();
    analyser.push_silence(4095);
    assert_eq!(recorded(&mut analyser, 3), vec![NEGATIVE_INFINITY; 3]);
    analyser.push_silence(1);
    assert_eq!(recorded(&mut analyser, 3), vec![0; 3]);
}

#[test]
fn there_are_half_as_many_frequencies_as_samples() {
    let mut analyser = Analyser::default();
    assert_eq!(recorded(&mut analyser, 0), Vec::<u32>::new());
    assert_eq!(recorded(&mut analyser, 5000).len(), 2048);
    analyser.push_interleaved_f32le(&[], 1, 96_000, mix);
    assert_eq!(recorded(&mut analyser, 5000).len(), 4096);
    assert_eq!(analyser.sample_rate(), 96_000);
}

#[test]
fn channels_are_averaged_and_a_rest_is_left_out() {
    let mut analyser = Analyser::default();
    analyser.push_silence(4095);
    let mut bytes = interleaved(&[1.0, 0.0]);
    bytes.extend_from_slice(&[1, 2, 3, 4, 5, 6, 7]);
    analyser.push_interleaved_f32le(&bytes, 2, 44_100, mix);
    let window = analyser.frequency_data(
        1,
        0,
        |window: &Vec<u32>| {
            let mut turned = window.clone();
            turned.reverse();
            turned
        },
        |_previous, magnitude, _weight| magnitude,
        |magnitude| magnitude,
    );
    assert_eq!(window, vec![0.5_f32.to_bits()]);
}

#[test]
fn no_channels_change_nothing() {
    let mut analyser = Analyser::default();
    analyser.push_interleaved_f32le(&[0; 64], 0, 96_000, mix);
    assert_eq!(analyser.sample_rate(), 48_000);
}

#[test]
fn only_the_latest_samples_are_kept() {
    let mut analyser = Analyser::default();
    let mut samples = vec![1.0_f32; MAX_FFT_SIZE];
    samples.push(2.0);
    samples.extend(vec![3.0; 4095]);
    analyser.push_interleaved_f32le(&interleaved(&samples), 1, 48_000, mix);
    let window = recorded(&mut analyser, 2);
    assert_eq!(window, vec![2.0_f32.to_bits(), 3.0_f32.to_bits()]);
}

/// A signal that differs from sample to sample.
fn signal(frames: usize) -> Vec<f32> {
    (0..frames).map(|n| ((n * 37) % 101) as f32 / 101.0 - 0.5).collect()
}

fn analyser_with(bytes: &[u8], channels: usize) -> Analyser {
    let mut analyser = Analyser::default();
    analyser.push_interleaved_f32le(bytes, channels, 48_000, mix);
    analyser
}

#[test]
fn fewer_bins_give_a_prefix_and_the_same_state() {
    let bytes = interleaved(&signal(5000));
    let (mut few, mut many) = (analyser_with(&bytes, 1), analyser_with(&bytes, 1));
    let first = frequency_data(&mut few, 3, 50_000_000_000);
    let second = frequency_data(&mut many, 9000, 50_000_000_000);
    assert_eq!(second.len(), 2048);
    assert_eq!(first, second[..3]);
    assert_eq!(
        frequency_data(&mut few, 2048, 50_000_000_000),
        frequency_data(&mut many, 2048, 50_000_000_000)
    );
}

#[test]
fn an_analysis_forgets_what_windows_of_other_lengths_left() {
    let mut analyser = Analyser::default();
    analyser.push_silence(MAX_FFT_SIZE);
    let sum = |analyser: &mut Analyser| {
        analyser.frequency_data(
            1,
            0,
            |window: &Vec<u32>| vec![1; window.len()],
            |previous, magnitude, _weight| previous + magnitude,
            |magnitude| magnitude,
        )
    };
    assert_eq!(sum(&mut analyser), vec![1]);
    assert_eq!(sum(&mut analyser), vec![2]);
    analyser.push_interleaved_f32le(&[], 1, 96_000, mix);
    assert_eq!(sum(&mut analyser), vec![1]);
    analyser.push_interleaved_f32le(&[], 1, 48_000, mix);
    assert_eq!(sum(&mut analyser), vec![1]);
}

#[test]
fn only_the_newest_window_shows() {
    let tail = signal(4096);
    let mut longer = vec![0.75; 40_000];
    longer.extend_from_slice(&tail);
    let mut first = analyser_with(&interleaved(&tail), 1);
    let mut second = analyser_with(&interleaved(&longer), 1);
    assert_eq!(frequency_data(&mut first, 64, 0), frequency_data(&mut second, 64, 0));
}

#[test]
fn pushing_in_parts_is_pushing_at_once() {
    let mut bytes = interleaved(&signal(9000));
    bytes.extend_from_slice(&[1, 2, 3, 4, 5]);
    let mut parts = analyser_with(&bytes[..8 * 1000], 2);
    parts.push_interleaved_f32le(&bytes[8 * 1000..], 2, 48_000, mix);
    let mut once = analyser_with(&bytes, 2);
    assert_eq!(recorded(&mut parts, 2048), recorded(&mut once, 2048));
    parts.push_interleaved_f32le(&bytes[..7], 2, 48_000, mix);
    assert_eq!(recorded(&mut parts, 2048), recorded(&mut once, 2048));
}

#[test]
fn mixed_samples_are_one_channel() {
    let stereo = signal(9000);
    let mono: Vec<f32> = stereo.chunks(2).map(|frame| (frame[0] + frame[1]) / 2.0).collect();
    let mut first = analyser_with(&interleaved(&stereo), 2);
    let mut second = analyser_with(&interleaved(&mono), 1);
    assert_eq!(recorded(&mut first, 2048), recorded(&mut second, 2048));
    let opposite: Vec<f32> = (0..8192).map(|n| if n % 2 == 0 { 1.0 } else { -1.0 }).collect();
    let mut silent = analyser_with(&interleaved(&opposite), 2);
    assert_eq!(recorded(&mut silent, 2048), vec![0; 2048]);
}

#[test]
fn silence_is_zero_bytes() {
    let bytes = interleaved(&signal(4096));
    let (mut quiet, mut zeros) = (analyser_with(&bytes, 1), analyser_with(&bytes, 1));
    frequency_data(&mut quiet, 8, 0);
    frequency_data(&mut zeros, 8, 0);
    quiet.push_silence(1000);
    zeros.push_interleaved_f32le(&vec![0; 4000], 1, 48_000, mix);
    assert_eq!(
        frequency_data(&mut quiet, 2048, 90_000_000_000),
        frequency_data(&mut zeros, 2048, 90_000_000_000)
    );
    assert_eq!(quiet.sample_rate(), 48_000);
}

#[test]
fn a_reset_analyser_is_like_a_new_one() {
    let mut reset = Analyser::default();
    reset.push_interleaved_f32le(&interleaved(&signal(9000)), 1, 96_000, mix);
    frequency_data(&mut reset, 8, 50_000_000_000);
    reset.reset();
    let mut new = Analyser::default();
    new.push_interleaved_f32le(&[], 1, 96_000, mix);
    assert_eq!(reset.sample_rate(), 96_000);
    for frames in [8191, 1, 5000] {
        let bytes = interleaved(&signal(frames));
        reset.push_interleaved_f32le(&bytes, 1, 96_000, mix);
        new.push_interleaved_f32le(&bytes, 1, 96_000, mix);
        assert_eq!(
            frequency_data(&mut reset, 64, 50_000_000_000),
            frequency_data(&mut new, 64, 50_000_000_000)
        );
    }
}
