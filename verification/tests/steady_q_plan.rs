//! Tests of the integer Steady-Q layout planning: unit counts, octave
//! lengths, the feasibility limit, interpolant coverage, and the merge
//! layout of the blended spectrum.

use spectre::plan::{
    interpolant_len, interpolant_source, log2_if_pow2, ConfigError, MergeLayout, SteadyQPlan,
    MAX_UNITS,
};

/// FFT length for a frequency resolution target, as the analyzer derives it
/// from its floating-point configuration surface.
fn fft_len_for_resolution(resolution: f32, sample_rate: usize) -> usize {
    2usize.pow((sample_rate as f32 / resolution).log2().ceil() as u32)
}

/// FFT length for a time resolution target in milliseconds.
fn fft_len_for_time_res(time_res_ms: f32, sample_rate: usize) -> usize {
    let samples = (time_res_ms * sample_rate as f32 / 1000.0) as usize;
    if samples.is_power_of_two() {
        samples
    } else {
        (samples / 4).next_power_of_two()
    }
}

#[test]
fn infeasible_resolution_pair_fails_construction() {
    // A 0.01 Hz resolution at 20 Hz together with a 0.01 ms time resolution
    // at 20 kHz spans far more than 11 octave steps at 44100 Hz.
    let len_lowfreq = fft_len_for_resolution(0.01, 44100);
    let len_highfreq = fft_len_for_time_res(0.01, 44100);
    assert_eq!(len_lowfreq, 1 << 23);
    assert_eq!(len_highfreq, 1);
    assert_eq!(
        SteadyQPlan::new(len_lowfreq, len_highfreq),
        Err(ConfigError::InfeasibleResolution)
    );
}

#[test]
fn twelve_octave_span_fails_eleven_succeeds() {
    assert_eq!(MAX_UNITS, 11);
    // 2^13 down to 2^2: 12 units, one too many.
    assert_eq!(
        SteadyQPlan::new(8192, 4),
        Err(ConfigError::InfeasibleResolution)
    );
    // 2^12 down to 2^2: exactly 11 units.
    let plan = SteadyQPlan::new(4096, 4).unwrap();
    assert_eq!(plan.num_units(), 11);
    assert_eq!(plan.unit_len(0), 4096);
    assert_eq!(plan.unit_len(10), 4);
}

#[test]
fn default_configuration_yields_ten_units() {
    // The analyzer's default targets: 1 Hz resolution at 20 Hz, 7 ms time
    // resolution at 20 kHz, at a 44100 Hz sample rate.
    let len_lowfreq = fft_len_for_resolution(1.0, 44100);
    let len_highfreq = fft_len_for_time_res(7.0, 44100);
    assert_eq!(len_lowfreq, 65536);
    assert_eq!(len_highfreq, 128);
    let plan = SteadyQPlan::new(len_lowfreq, len_highfreq).unwrap();
    assert_eq!(plan.num_units(), 10);
    let mut expected = 65536;
    for i in 0..plan.num_units() {
        assert_eq!(plan.unit_len(i), expected);
        expected /= 2;
    }
    assert_eq!(plan.unit_len(plan.num_units() - 1), 128);
    assert_eq!(plan.output_len(0), 32769);
    assert_eq!(plan.merged_len(), 32769);
    assert_eq!(plan.output_len(9), 65);
}

#[test]
fn harsher_time_resolution_collapses_to_single_unit() {
    // When the time-resolution length exceeds the frequency-resolution one,
    // a single FFT serves the whole plan, at the larger length.
    let plan = SteadyQPlan::new(256, 1024).unwrap();
    assert_eq!(plan.num_units(), 1);
    assert_eq!(plan.unit_len(0), 1024);
    assert_eq!(plan.merged_len(), 513);
}

#[test]
fn octave_lengths_halve_from_the_widest() {
    let plan = SteadyQPlan::new(1024, 256).unwrap();
    assert_eq!(plan.num_units(), 3);
    assert_eq!(plan.unit_len(0), 1024);
    assert_eq!(plan.unit_len(1), 512);
    assert_eq!(plan.unit_len(2), 256);
    assert_eq!(plan.stride(0), 1);
    assert_eq!(plan.stride(1), 2);
    assert_eq!(plan.stride(2), 4);
}

#[test]
fn non_power_of_two_lengths_are_rejected() {
    assert_eq!(
        SteadyQPlan::new(1000, 256),
        Err(ConfigError::NotPowerOfTwo)
    );
    assert_eq!(
        SteadyQPlan::new(1024, 255),
        Err(ConfigError::NotPowerOfTwo)
    );
    assert_eq!(SteadyQPlan::new(0, 256), Err(ConfigError::NotPowerOfTwo));
}

#[test]
fn sub_two_point_fft_is_rejected() {
    assert_eq!(
        SteadyQPlan::new(1024, 1),
        Err(ConfigError::FftLengthTooShort)
    );
}

#[test]
fn interpolants_cover_the_merged_spectrum_exactly() {
    let plan = SteadyQPlan::new(65536, 128).unwrap();
    let merged = plan.merged_len();
    for i in 0..plan.num_units() {
        assert_eq!(interpolant_len(plan.output_len(i), plan.stride(i)), merged);
    }
}

#[test]
fn interpolant_point_count_follows_the_stride() {
    assert_eq!(interpolant_len(5, 3), 13);
    assert_eq!(interpolant_len(1, 7), 1);
    assert_eq!(interpolant_len(2, 1), 2);
    assert_eq!(interpolant_len(513, 4), 2049);
    assert_eq!(interpolant_len(0, 7), 0);
}

#[test]
fn interpolant_points_bracket_their_inputs() {
    // Point i of a stride-4 interpolant of 3 inputs blends inputs i/4 and
    // i/4 + 1 with weight (i mod 4)/4; the final point copies the last
    // input.
    assert_eq!(interpolant_source(0, 4, 3), (0, 1, 0));
    assert_eq!(interpolant_source(1, 4, 3), (0, 1, 1));
    assert_eq!(interpolant_source(3, 4, 3), (0, 1, 3));
    assert_eq!(interpolant_source(4, 4, 3), (1, 2, 0));
    assert_eq!(interpolant_source(7, 4, 3), (1, 2, 3));
    assert_eq!(interpolant_source(8, 4, 3), (2, 2, 0));
    // With stride 1 every point copies one input.
    assert_eq!(interpolant_source(0, 1, 2), (0, 1, 0));
    assert_eq!(interpolant_source(1, 1, 2), (1, 1, 0));
}

#[test]
fn exponents_of_powers_of_two_are_recovered() {
    assert_eq!(log2_if_pow2(1), Some(0));
    assert_eq!(log2_if_pow2(2), Some(1));
    assert_eq!(log2_if_pow2(4096), Some(12));
    assert_eq!(log2_if_pow2(0), None);
    assert_eq!(log2_if_pow2(12), None);
}

#[test]
fn merge_layout_splits_the_spectrum_into_regions() {
    let layout = MergeLayout::new(vec![3, 5, 9], 10).unwrap();
    assert_eq!(layout.direct_copy_end(), 3);
    assert_eq!(layout.num_transitions(), 2);
    assert_eq!(layout.transition_bounds(0), (3, 5));
    assert_eq!(layout.transition_bounds(1), (5, 9));
    assert_eq!(layout.tail_start(), 9);
    assert_eq!(layout.len(), 10);
}

#[test]
fn merge_layout_allows_empty_regions() {
    let layout = MergeLayout::new(vec![4, 4], 10).unwrap();
    assert_eq!(layout.direct_copy_end(), 4);
    assert_eq!(layout.transition_bounds(0), (4, 4));
    assert_eq!(layout.tail_start(), 4);
}

#[test]
fn disordered_or_overrunning_borders_are_rejected() {
    assert!(matches!(
        MergeLayout::new(vec![5, 3], 10),
        Err(ConfigError::UnorderedOptimalBins)
    ));
    assert!(matches!(
        MergeLayout::new(vec![], 5),
        Err(ConfigError::UnorderedOptimalBins)
    ));
    assert!(matches!(
        MergeLayout::new(vec![3, 11], 10),
        Err(ConfigError::UnorderedOptimalBins)
    ));
}
