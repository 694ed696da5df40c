use beat_detector::{
    AudioHistory, InternalPeak, LocalMinMax, LocalMinMaxIterator, PeakDetector,
    Sample, ZeroOfFunctionIterator, MINIMUM_PEAK,
};

/// Samples from amplitudes written in full-scale units.
fn samples(values: &[f64]) -> Vec<Sample> {
    values.iter().map(|v| (v * 1_000_000.0).round() as Sample).collect()
}

/// Index, time in milliseconds and value in thousandths of a peak.
fn fields(p: &InternalPeak) -> (usize, u64, i32) {
    (p.sample_index, p.peak.relative_time(), p.peak.value())
}

#[test]
fn test_zero_of_function_iterator() {
    let input = samples(&[0.0, 0.0, 0.0, 0.0]);
    let mut iterator = ZeroOfFunctionIterator::new(&input, None);
    (0..4).for_each(|_index| {
        assert_eq!(iterator.next(), None);
    });

    let input = samples(&[0.0, 1.0, 0.0, 0.0]);
    let mut iterator = ZeroOfFunctionIterator::new(&input, None);
    assert_eq!(iterator.next(), Some(2));
    assert_eq!(iterator.next(), None);

    let input = samples(&[2.0, 1.0, 0.0, 0.0]);
    let mut iterator = ZeroOfFunctionIterator::new(&input, None);
    assert_eq!(iterator.next(), Some(2));
    assert_eq!(iterator.next(), None);

    let input = samples(&[0.0, -2.0, 4.0, -8.0, 0.1, 0.0]);
    let mut iterator = ZeroOfFunctionIterator::new(&input, None);
    assert_eq!(iterator.next(), Some(2));
    assert_eq!(iterator.next(), Some(3));
    assert_eq!(iterator.next(), Some(4));
    assert_eq!(iterator.next(), Some(5));
    assert_eq!(iterator.next(), None);

    let input = samples(&[0.0, -0.5, -0.5, 0.0, 0.5, 0.5, 0.0]);
    let mut iterator = ZeroOfFunctionIterator::new(&input, None);
    assert_eq!(iterator.next(), Some(3));
    assert_eq!(iterator.next(), Some(6));
    assert_eq!(iterator.next(), None);
}

#[test]
fn zero_of_function_iterator_test_preferred_begin_index() {
    let test_data = samples(&[0.0, -0.2, -0.4, -0.2, 0.0, 0.2, 0.4, 0.2, 0.0]);

    for start_index in 0..3 {
        let mut iterator = ZeroOfFunctionIterator::new(&test_data, Some(start_index));
        assert_eq!(iterator.next().unwrap(), 4);
        assert_eq!(iterator.next().unwrap(), 8);
        assert_eq!(iterator.next(), None);
    }

    for start_index in 4..7 {
        let mut iterator = ZeroOfFunctionIterator::new(&test_data, Some(start_index));
        assert_eq!(iterator.next().unwrap(), 8);
        assert_eq!(iterator.next(), None);
    }

    let mut iterator = ZeroOfFunctionIterator::new(&test_data, Some(8));
    assert_eq!(iterator.next(), None);
}

#[test]
fn test_find_next_local_minmax() {
    let input = samples(&[0.0, 0.0]);
    let mut iterator = LocalMinMaxIterator::new(&input, None);
    let maybe_peak = iterator.next();
    assert!(
        maybe_peak.is_none(),
        "only zeroes - no local minimum or maximum!"
    );

    let input = samples(&[0.0, 0.0, 0.0, 0.0, 0.0, 0.0]);
    let mut iterator = LocalMinMaxIterator::new(&input, None);
    let maybe_peak = iterator.next();
    assert!(
        maybe_peak.is_none(),
        "only zeroes - no local minimum or maximum!"
    );

    let input = samples(&[0.0, 0.0, 0.0, 0.0, 0.0, 1.0]);
    let mut iterator = LocalMinMaxIterator::new(&input, None);
    let maybe_peak = iterator.next();
    assert!(
        maybe_peak.is_none(),
        "no clear minimum or maximum detectable at end of samples array"
    );

    let input = samples(&[0.0, 0.0, 0.0, -0.1, 1.0, 1.1, 0.0, 0.0, -2.0, 0.0]);
    let mut iterator = LocalMinMaxIterator::new(&input, None);
    let maybe_peak = iterator.next();
    assert_eq!(
        LocalMinMax {
            index: 3,
            value: -100_000,
        },
        maybe_peak.unwrap(),
        "must skip zeroes at beginning and return local maximum at end of wave"
    );

    // ---------

    let input = samples(&[1.0, 2.0, 1.0, 3.0, 0.0]);
    let mut iterator = LocalMinMaxIterator::new(&input, None);
    let maybe_peak = iterator.next();
    assert_eq!(
        None, maybe_peak,
        "no clear zeros of function available, thus no peaks"
    );

    // ---------

    let input = samples(&[0.0, 1.1, 2.2, 1.1, 0.0, -1.1, -2.2, -1.1, 0.0]);
    let mut iterator = LocalMinMaxIterator::new(&input, None);

    let maybe_peak = iterator.next();
    assert_eq!(
        LocalMinMax {
            index: 2,
            value: 2_200_000,
        },
        maybe_peak.unwrap()
    );

    let maybe_peak = iterator.next();
    assert_eq!(
        LocalMinMax {
            index: 6,
            value: -2_200_000,
        },
        maybe_peak.unwrap()
    );

    let maybe_peak = iterator.next();
    assert!(maybe_peak.is_none());

    // ---------

    let input = samples(&[0.0, 0.1, 0.2, 0.3, 14.0, 0.1, -0.1]);
    let mut iterator = LocalMinMaxIterator::new(&input, None);
    let maybe_peak = iterator.next();
    assert_eq!(
        LocalMinMax {
            index: 4,
            value: 14_000_000,
        },
        maybe_peak.unwrap()
    );

    // ---------

    let input = samples(&[0.0, 1.0, 0.8, 0.6, 0.5, 0.2, -0.5]);
    let mut iterator = LocalMinMaxIterator::new(&input, None);
    let maybe_peak = iterator.next();
    assert_eq!(
        LocalMinMax {
            index: 1,
            value: 1_000_000,
        },
        maybe_peak.unwrap()
    );
}

#[test]
fn local_min_max_iterator_test_preferred_begin_index() {
    let test_data = samples(&[0.0, -0.2, -0.4, -0.2, 0.0, 0.2, 0.4, 0.2, 0.0]);

    let mut iterator = LocalMinMaxIterator::new(&test_data, Some(0));
    assert_eq!(iterator.next().unwrap().index, 2);
    assert_eq!(iterator.next().unwrap().index, 6);
    assert_eq!(iterator.next(), None);

    for start_index in 1..=4 {
        let mut iterator = LocalMinMaxIterator::new(&test_data, Some(start_index));
        assert_eq!(iterator.next().unwrap().index, 6);
        assert_eq!(iterator.next(), None);
    }

    for start_index in 5..9 {
        let mut iterator = LocalMinMaxIterator::new(&test_data, Some(start_index));
        assert_eq!(iterator.next(), None);
    }
}

#[test]
fn equal_extrema_keep_the_later_one() {
    let input = samples(&[0.0, 0.5, 0.5, 0.0]);
    let mut iterator = LocalMinMaxIterator::new(&input, None);
    assert_eq!(iterator.next().unwrap().index, 2);
}

#[test]
fn test_peaks_detector_ignores_really_small_values() {
    let test_data = samples(&[-0.01, 0.01, -0.01, 0.01, -0.5, 0.6, -1.0, 0.0]);
    let mut audio_history = AudioHistory::<1024>::new(1);
    audio_history.update(&test_data);

    let peaks = PeakDetector::detect_peaks(&test_data, &audio_history.meta(), None);
    let peaks = peaks.as_slice();

    let expected = [(4, 5000, -500), (5, 6000, 600), (6, 7000, -1000)];
    assert_eq!(peaks.len(), expected.len());
    peaks.iter().enumerate().for_each(|(peak_index, peak)| {
        assert_eq!(fields(peak), expected[peak_index]);
        assert_eq!(peak.peak_number, peak_index);
    });
}

#[test]
fn peak_detector_test_preferred_begin_index() {
    let test_data = samples(&[0.0, -0.2, -0.4, -0.2, 0.0, 0.2, 0.4, 0.2, 0.0]);
    let mut audio_history = AudioHistory::<100>::new(1);
    audio_history.update(&test_data);
    let meta = audio_history.meta();
    let all_peaks = PeakDetector::detect_peaks(audio_history.latest_audio(), &meta, None);
    let all_peaks: Vec<_> = all_peaks.as_slice().iter().map(fields).collect();
    let all_peaks_expected = [(2, 3000, -400), (6, 7000, 400)];
    assert_eq!(all_peaks, all_peaks_expected);

    for start in 1..=4 {
        let peaks = PeakDetector::detect_peaks(audio_history.latest_audio(), &meta, Some(start));
        let peaks: Vec<_> = peaks.as_slice().iter().map(fields).collect();
        assert_eq!(peaks, &all_peaks_expected[1..]);
    }

    let peaks = PeakDetector::detect_peaks(audio_history.latest_audio(), &meta, Some(5));
    assert!(peaks.as_slice().is_empty());
}

#[test]
fn no_peak_below_the_noise_floor() {
    // a wave whose half-periods alternate between loud and quiet
    let mut input = Vec::new();
    for k in 0..40 {
        let amplitude = if k % 2 == 0 { 0.049 } else { 0.3 };
        let sign = if k % 2 == 0 { 1.0 } else { -1.0 };
        input.extend_from_slice(&[0.0, sign * amplitude / 2.0, sign * amplitude, sign * amplitude / 2.0]);
    }
    input.push(0.0);
    let input = samples(&input);
    let mut audio_history = AudioHistory::<1024>::new(1000);
    audio_history.update(&input);
    let meta = audio_history.meta();
    let peaks = PeakDetector::detect_peaks(&input, &meta, None);
    let peaks = peaks.as_slice();
    assert_eq!(peaks.len(), 20);
    for (k, p) in peaks.iter().enumerate() {
        assert!(input[p.sample_index].unsigned_abs() >= MINIMUM_PEAK);
        assert_eq!(p.peak.value(), -300);
        assert_eq!(p.peak_number, k);
    }
}

#[test]
fn all_zero_signal_has_no_peaks() {
    let input = vec![0; 2048];
    let mut audio_history = AudioHistory::<2048>::new(44100);
    audio_history.update(&input);
    let meta = audio_history.meta();
    let peaks = PeakDetector::detect_peaks(&input, &meta, None);
    assert!(peaks.as_slice().is_empty());
    let mut iterator = LocalMinMaxIterator::new(&input, None);
    assert_eq!(iterator.next(), None);
}

#[test]
fn peak_list_stops_at_its_capacity() {
    // 600 half-periods of a loud square-ish wave
    let mut input = Vec::new();
    for k in 0..600 {
        let v = if k % 2 == 0 { 500_000 } else { -500_000 };
        input.extend_from_slice(&[v, v]);
    }
    input.push(0);
    let mut audio_history = AudioHistory::<2048>::new(44100);
    audio_history.update(&input);
    let meta = audio_history.meta();
    let peaks = PeakDetector::detect_peaks(&input, &meta, None);
    assert_eq!(peaks.as_slice().len(), 512);
}

#[test]
fn peak_rounds_time_and_value() {
    let input = samples(&[0.0, 0.12345, 0.0]);
    let mut audio_history = AudioHistory::<16>::new(3);
    audio_history.update(&input);
    let meta = audio_history.meta();
    let peak = beat_detector::Peak::new(1, -123_456, &meta);
    // sample 2 of the stream at 3 Hz: 0.6667 s
    assert_eq!(peak.relative_time(), 667);
    assert_eq!(peak.value(), -123);
    assert_eq!(peak.abs_value(), 123);
    assert_eq!(peak.sample_number(), 2);
    assert_eq!(beat_detector::round_to_thousandths(-2_500), -3);
    assert_eq!(beat_detector::round_to_thousandths(2_499), 2);
    assert_eq!(beat_detector::sample_abs(i32::MIN), 2_147_483_648);
}
