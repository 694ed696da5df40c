use beat_detector::{AudioHistory, Sample};

#[test]
fn test_audio_history() {
    let mut audio_history = AudioHistory::<10>::new(1);
    assert_eq!(audio_history.total_relative_time(), 0);
    assert_eq!(audio_history.amount_new_samples_on_latest_update(), 0);

    audio_history.update(&[0]);
    assert_eq!(audio_history.total_relative_time(), 1_000_000);
    assert_eq!(audio_history.amount_new_samples_on_latest_update(), 1);
    assert_eq!(audio_history.amount_total_samples(), 1);

    audio_history.update(&[0]);
    assert_eq!(audio_history.total_relative_time(), 2_000_000);
    assert_eq!(audio_history.amount_new_samples_on_latest_update(), 1);
    assert_eq!(audio_history.amount_total_samples(), 2);
}

#[test]
fn test_audio_history_time_of_sample() {
    let mut audio_history = AudioHistory::<10>::new(1);
    assert_eq!(audio_history.len(), 0);
    audio_history.update(&[0; 3]);
    assert_eq!(audio_history.len(), 3);

    // three samples were added: they stand at indices 0..3, the newest last
    assert_eq!(audio_history.time_of_sample(0), 1_000_000);
    assert_eq!(audio_history.time_of_sample(1), 2_000_000);
    assert_eq!(audio_history.time_of_sample(2), 3_000_000);

    audio_history.update(&[0; 10]);
    assert_eq!(audio_history.len(), 10);
    assert_eq!(audio_history.amount_total_samples(), 13);
    assert_eq!(audio_history.total_relative_time(), 13_000_000);
    assert_eq!(audio_history.time_of_sample(0), 4_000_000);
    assert_eq!(audio_history.time_of_sample(9), 13_000_000);
}

/// Plays `audio` into histories of capacity `N` in chunks of several sizes and checks the
/// bookkeeping after each chunk.
fn simulate_play_audio<const N: usize>(audio: &[Sample], sampling_rate: u32) {
    for chunk_size in [1, 2, 4, 256, 512] {
        let mut audio_history = AudioHistory::<N>::new(sampling_rate);
        let mut consumed_chunk_count: u64 = 0;

        assert_eq!(audio_history.amount_new_samples_on_latest_update(), 0);
        assert_eq!(audio_history.amount_total_samples(), 0);
        assert_eq!(audio_history.total_relative_time(), 0);
        assert_eq!(audio_history.audio_time_in_buffer(), 0);

        for chunk in audio.chunks(chunk_size) {
            audio_history.update(chunk);
            consumed_chunk_count += chunk.len() as u64;

            assert_eq!(audio_history.amount_new_samples_on_latest_update(), chunk.len());
            assert_eq!(audio_history.amount_total_samples(), consumed_chunk_count);
            // 1 / 44100 s is 22.68 µs
            assert_eq!(audio_history.time_per_sample(), 23);
            assert_eq!(
                audio_history.total_relative_time(),
                (2 * consumed_chunk_count * 1_000_000 + sampling_rate as u64)
                    / (2 * sampling_rate as u64)
            );
        }

        // in milliseconds, rounded
        assert_eq!(
            (audio_history.time_of_sample(audio_history.capacity() - 1) + 500) / 1000,
            7999
        );
    }
}

/// The recording is replaced by a synthetic signal of the same kind: 7.999 s at 44.1 kHz.
#[test]
fn test_audio_history_on_real_data() {
    let sampling_rate: u32 = 44100;
    let audio: Vec<Sample> = (0..352_756u32)
        .map(|i| ((i % 200) as i32 - 100) * 5_000)
        .collect();

    simulate_play_audio::<1>(&audio, sampling_rate);
    simulate_play_audio::<3>(&audio, sampling_rate);
    simulate_play_audio::<256>(&audio, sampling_rate);
    simulate_play_audio::<4096>(&audio, sampling_rate);
    simulate_play_audio::<22050>(&audio, sampling_rate);
}

#[test]
fn test_calc_index_after_update() {
    let mut audio_history = AudioHistory::<4>::new(1);

    audio_history.update(&[0]);
    audio_history.update(&[1]);
    audio_history.update(&[2]);
    assert_eq!(audio_history.meta().amount_outfaded_elements(), 0);
    assert_eq!(
        audio_history.calc_index_after_update(0),
        Some(0),
        "must still be in buffer because buffer is not full yet"
    );
    assert_eq!(
        audio_history.calc_index_after_update(1),
        Some(1),
        "must still be in buffer because buffer is not full yet"
    );

    audio_history.update(&[3]);
    assert_eq!(audio_history.meta().amount_outfaded_elements(), 0);
    assert_eq!(
        audio_history.calc_index_after_update(2),
        Some(2),
        "must still be in buffer because buffer is not full yet"
    );

    audio_history.update(&[4, 5]);
    assert_eq!(
        audio_history.calc_index_after_update(0),
        None,
        "index 0 must fade out of buffer"
    );
    assert_eq!(
        audio_history.calc_index_after_update(1),
        None,
        "index 0 must fade out of buffer"
    );
    assert_eq!(
        audio_history.calc_index_after_update(2),
        Some(0),
        "index 2 must become index 0"
    );
    assert_eq!(
        audio_history.calc_index_after_update(3),
        Some(1),
        "index 3 must become index 1"
    );

    audio_history.update(&[4, 5, 6, 7, 8]);
    (0..4).for_each(|index| {
        assert_eq!(
            audio_history.calc_index_after_update(index),
            None,
            "must fade out all indices because so many new samples were added"
        );
    });
}

#[test]
fn history_len_grows_then_stays_at_capacity() {
    let mut audio_history = AudioHistory::<5>::new(8000);
    let mut previous = 0;
    for chunk_len in [1usize, 2, 1, 3, 4, 1] {
        audio_history.update(&vec![7; chunk_len]);
        let len = audio_history.len();
        assert!(len <= 5);
        assert!(len >= previous);
        if previous == 5 {
            assert_eq!(len, 5);
        }
        previous = len;
    }
    assert_eq!(previous, 5);
}

#[test]
fn total_time_does_not_depend_on_chunking() {
    let samples: Vec<Sample> = (0..10_000).map(|i| (i % 7) * 1000).collect();
    let mut times = Vec::new();
    for chunk_size in [1, 4, 256, 4096] {
        let mut audio_history = AudioHistory::<2048>::new(44100);
        for chunk in samples.chunks(chunk_size) {
            audio_history.update(chunk);
        }
        times.push(audio_history.total_relative_time());
    }
    // 10000 / 44100 s = 226757.37 µs
    assert_eq!(times, vec![226_757; 4]);
}

#[test]
fn eviction_counts_follow_the_three_cases() {
    let mut audio_history = AudioHistory::<4>::new(1);
    audio_history.update(&[1, 2]);
    // not full yet
    assert_eq!(audio_history.meta().amount_outfaded_elements(), 0);
    audio_history.update(&[3, 4, 5]);
    // becomes full: 2 + 3 - 4
    assert_eq!(audio_history.meta().amount_outfaded_elements(), 1);
    audio_history.update(&[6, 7]);
    // was full: every new sample pushes one out
    assert_eq!(audio_history.meta().amount_outfaded_elements(), 2);
    assert_eq!(audio_history.latest_audio(), &[4, 5, 6, 7]);
    assert_eq!(audio_history.audio_time_in_buffer(), 4_000_000);
    assert_eq!(audio_history.meta().sampling_rate(), 1);
    assert_eq!(audio_history.meta().capacity(), 4);
}
