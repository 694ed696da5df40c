use beat_detector::{
    chunk_size_advisory, AudioHistory, BandAnalyzer, BandAnalyzerError, BeatDetector, BeatInfo,
    BeatIntensity, ChunkAdvisory, EnvelopeDetector, FrequencyBand, Sample, BEAT_HISTORY_LEN,
};

const RATE: u32 = 44100;

/// A 50 Hz tone whose amplitude rises linearly to 0.8 within 25 ms from `onset` seconds on
/// and then decays with a time constant of 30 ms: the highest peak is at `onset + 0.025`.
fn thump_at(onset: f64, t: f64) -> f64 {
    if t < onset {
        return 0.0;
    }
    let dt = t - onset;
    let amplitude = if dt < 0.025 {
        0.8 * dt / 0.025
    } else {
        0.8 * (-(dt - 0.025) / 0.03).exp()
    };
    amplitude * (2.0 * std::f64::consts::PI * 50.0 * dt).sin()
}

/// `seconds` of audio with a thump at each onset.
fn thumps(onsets: &[f64], seconds: f64) -> Vec<Sample> {
    let n = (seconds * RATE as f64) as usize;
    (0..n)
        .map(|i| {
            let t = i as f64 / RATE as f64;
            let v: f64 = onsets.iter().map(|o| thump_at(*o, t)).sum();
            (v * 1_000_000.0).round() as Sample
        })
        .collect()
}

/// Feeds `audio` in chunks of `chunk` samples (the signal is already band limited, so it is
/// its own band-passed copy) and collects the beats.
fn detect_all(audio: &[Sample], chunk: usize) -> Vec<BeatInfo> {
    let mut detector = BeatDetector::new(RATE).unwrap();
    audio
        .chunks(chunk)
        .filter_map(|c| detector.on_new_audio(c, c))
        .collect()
}

#[test]
fn thump_yields_exactly_one_beat_at_its_apex() {
    let audio = thumps(&[0.3], 1.5);
    let beats = detect_all(&audio, 256);
    assert_eq!(beats.len(), 1);
    let beat = beats[0];
    // apex at 0.325 s, times in milliseconds
    assert!(beat.time_of_beat().abs_diff(325) <= 10);
    assert_eq!(beat.frequency_band(), FrequencyBand::Low);
    assert_eq!(beat.bpm(), 1);
    let env = beat.envelope();
    assert!(env.intensity().val() >= 780 && env.intensity().val() <= 800);
}

#[test]
fn silence_yields_no_beat() {
    let audio = vec![0; 20_000];
    assert!(detect_all(&audio, 256).is_empty());
    let mut history = AudioHistory::<4096>::new(RATE);
    history.update(&audio[..4096]);
    let meta = history.meta();
    let mut detector = EnvelopeDetector::new();
    assert!(detector
        .detect_envelope(&meta, history.latest_audio())
        .is_none());
}

#[test]
fn envelope_has_its_shape() {
    let audio = thumps(&[0.05], 0.3);
    let mut history = AudioHistory::<16384>::new(RATE);
    history.update(&audio);
    let meta = history.meta();
    let mut detector = EnvelopeDetector::new();
    let env = detector
        .detect_envelope(&meta, history.latest_audio())
        .unwrap();
    let (b, h, e) = (env.begin(), env.highest(), env.end());
    assert!(b.sample_number() < h.sample_number());
    assert!(h.sample_number() < e.sample_number());
    assert!(b.relative_time() <= h.relative_time() && h.relative_time() <= e.relative_time());
    assert!(b.abs_value() * 21 < h.abs_value() * 10);
    assert!(e.abs_value() * 21 < h.abs_value() * 10);
    // the begin is the peak at 5 ms, the highest the one at 25 ms, the end the one at 55 ms
    assert!(h.relative_time().abs_diff(75) <= 1);
    assert!(b.relative_time().abs_diff(55) <= 1);
    assert!(e.relative_time().abs_diff(105) <= 1);
    assert_eq!(env.intensity().val(), h.abs_value());
    let clarity_begin = (2 * h.abs_value() as u64 * 1000 + b.abs_value() as u64)
        / (2 * b.abs_value() as u64);
    assert_eq!(env.clarity_begin(), clarity_begin);
    let clarity_end =
        (2 * h.abs_value() as u64 * 1000 + e.abs_value() as u64) / (2 * e.abs_value() as u64);
    assert_eq!(env.clarity_end(), clarity_end);
    // the same window analysed again yields nothing new
    assert!(detector
        .detect_envelope(&meta, history.latest_audio())
        .is_none());
}

#[test]
fn successive_envelopes_do_not_overlap() {
    let audio = thumps(&[0.3, 0.7, 1.1], 1.8);
    let beats = detect_all(&audio, 256);
    assert_eq!(beats.len(), 3);
    for pair in beats.windows(2) {
        let first = pair[0].envelope();
        let second = pair[1].envelope();
        assert!(first.end().sample_number() < second.begin().sample_number());
    }
    let times: Vec<u64> = beats.iter().map(|b| b.time_of_beat()).collect();
    for (time, apex) in times.iter().zip([325u64, 725, 1125]) {
        assert!(time.abs_diff(apex) <= 10);
    }
}

#[test]
fn chunk_size_does_not_change_the_beats() {
    let audio = thumps(&[0.3], 1.0);
    for chunk in [64, 256, 1024, 4096] {
        let beats = detect_all(&audio, chunk);
        assert_eq!(beats.len(), 1);
        assert!(beats[0].time_of_beat().abs_diff(325) <= 10);
    }
}

#[test]
fn detector_needs_room_for_the_low_band() {
    assert_eq!(
        BeatDetector::new(139).err(),
        Some(BandAnalyzerError::AboveNyquist)
    );
    assert!(BeatDetector::new(140).is_ok());
    let detector = BeatDetector::new(48000).unwrap();
    assert_eq!(detector.sampling_rate(), 48000);
    assert_eq!(detector.amount_total_samples(), 0);
}

#[test]
fn band_edges_are_checked() {
    assert_eq!(
        BandAnalyzer::<16>::new(0, 70, 44100).err(),
        Some(BandAnalyzerError::ZeroLowerFrequency)
    );
    assert_eq!(
        BandAnalyzer::<16>::new(70, 25, 44100).err(),
        Some(BandAnalyzerError::InvertedBand)
    );
    assert_eq!(
        BandAnalyzer::<16>::new(70, 70, 44100).err(),
        Some(BandAnalyzerError::InvertedBand)
    );
    assert_eq!(
        BandAnalyzer::<16>::new(25, 70, 139).err(),
        Some(BandAnalyzerError::AboveNyquist)
    );
    let analyzer = BandAnalyzer::<16>::new(25, 70, 140).unwrap();
    assert_eq!(analyzer.lower_frequency(), 25);
    assert_eq!(analyzer.higher_frequency(), 70);
    assert_eq!(analyzer.sampling_frequency(), 140);
    let low = BandAnalyzer::<16>::new_low(44100).unwrap();
    assert_eq!((low.lower_frequency(), low.higher_frequency()), (25, 70));
}

#[test]
fn band_analyzer_finds_the_thump() {
    let audio = thumps(&[0.1], 0.5);
    let mut history = AudioHistory::<22500>::new(RATE);
    let mut analyzer = BandAnalyzer::<22500>::new_low(RATE).unwrap();
    let mut found = Vec::new();
    for chunk in audio.chunks(256) {
        history.update(chunk);
        let meta = history.meta();
        if let Some(env) = analyzer.detect_envelope(chunk, &meta) {
            found.push(env);
        }
    }
    assert_eq!(found.len(), 1);
    assert!(found[0].highest().relative_time().abs_diff(125) <= 10);
}

#[test]
fn chunk_advice() {
    assert_eq!(chunk_size_advisory(49, 44100), ChunkAdvisory::TooSmall);
    assert_eq!(chunk_size_advisory(50, 44100), ChunkAdvisory::Fine);
    assert_eq!(chunk_size_advisory(4410, 44100), ChunkAdvisory::Fine);
    assert_eq!(chunk_size_advisory(4411, 44100), ChunkAdvisory::TooLarge);
}

#[test]
fn beat_intensity_holds_its_value() {
    assert_eq!(BeatIntensity::new(535).val(), 535);
    assert_eq!(BEAT_HISTORY_LEN, 10);
}
