//! Incremental beat detection on a mono audio stream.
//!
//! Samples are fixed-point integers (see [`Sample`]). The library keeps a sliding, time-aware
//! history of the stream, extracts the zero-crossing bounded peaks of the band-passed signal
//! and groups them into beat envelopes, never reporting a beat twice.
pub mod audio_history;
pub mod band_analyzer;
pub mod beat_detector;
pub mod beat_info;
pub mod beat_intensity;
pub mod envelope_detector;
pub mod peak;
pub mod sample;
pub mod util;

pub use crate::audio_history::{
    AudioHistory, AudioHistoryMeta, HistoryModel, AUDIO_HISTORY_DEFAULT_BUFFER_SIZE,
    MAX_STREAM_SAMPLES,
};
pub use crate::band_analyzer::{
    BandAnalyzer, BandAnalyzerError, LOW_BAND_HIGHER_FREQUENCY, LOW_BAND_LOWER_FREQUENCY,
};
pub use crate::beat_detector::{
    chunk_size_advisory, BeatDetector, ChunkAdvisory, BEAT_HISTORY_LEN, PLACEHOLDER_BPM,
    SMALL_CHUNK_LEN,
};
pub use crate::beat_info::{BeatInfo, FrequencyBand};
pub use crate::beat_intensity::BeatIntensity;
pub use crate::envelope_detector::{Envelope, EnvelopeDetector, MAX_PEAK_DISTANCE_TO_BEGIN};
pub use crate::peak::local_min_max_iterator::{LocalMinMax, LocalMinMaxIterator};
pub use crate::peak::peak_detector::{PeakDetector, PeakVec, MINIMUM_PEAK, PEAK_CAPACITY};
pub use crate::peak::zero_of_function_iterator::ZeroOfFunctionIterator;
pub use crate::peak::{InternalPeak, Peak};
pub use crate::sample::{round_to_thousandths, sample_abs, Sample, SAMPLE_SCALE};
pub use crate::util::audio_ring_buffer::RingBufferWithSerialSliceAccess;
