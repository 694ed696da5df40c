//! Beat detection on a mono audio stream, chunk by chunk.
use crate::audio_history::{
    AudioHistory, HistoryModel, AUDIO_HISTORY_DEFAULT_BUFFER_SIZE, MAX_STREAM_SAMPLES,
};
use crate::band_analyzer::{BandAnalyzer, BandAnalyzerError, LOW_BAND_HIGHER_FREQUENCY};
use crate::beat_info::{BeatInfo, FrequencyBand};
use crate::envelope_detector::{lemma_settled_then_ready, Envelope, EnvelopeDetector};
use crate::sample::{within_full_scale, Sample};
use crate::util::audio_ring_buffer::{keep_newest, RingBufferWithSerialSliceAccess};
use vstd::prelude::*;

verus! {

/// How many recent beats the detector keeps.
pub const BEAT_HISTORY_LEN: usize = 10;

/// Chunks shorter than this cost much overhead per sample.
pub const SMALL_CHUNK_LEN: usize = 50;

/// The placeholder for beats per minute until they are computed.
pub const PLACEHOLDER_BPM: u8 = 1;

/// Advice on the size of a chunk of audio.
#[derive(Debug, Clone, Copy, PartialEq, Eq, Structural)]
pub enum ChunkAdvisory {
    /// The size is fine.
    Fine,
    /// Fewer than [`SMALL_CHUNK_LEN`] samples: much overhead per sample.
    TooSmall,
    /// More than 100 ms of audio: adds audible latency.
    TooLarge,
}

/// The advice on a chunk of `len` samples at `sampling_rate` Hz: too small below
/// [`SMALL_CHUNK_LEN`] samples, too large when it lasts more than 100 ms.
pub fn chunk_size_advisory(len: usize, sampling_rate: u32) -> (r: ChunkAdvisory)
    ensures
        len < SMALL_CHUNK_LEN ==> r == ChunkAdvisory::TooSmall,
        len >= SMALL_CHUNK_LEN && 10 * len > sampling_rate ==> r == ChunkAdvisory::TooLarge,
        len >= SMALL_CHUNK_LEN && 10 * len <= sampling_rate ==> r == ChunkAdvisory::Fine,
{
    if len < SMALL_CHUNK_LEN {
        ChunkAdvisory::TooSmall
    } else if len as u64 >= 429_496_730 || (len as u64) * 10 > sampling_rate as u64 {
        ChunkAdvisory::TooLarge
    } else {
        ChunkAdvisory::Fine
    }
}

/// Detects beats in mono audio, chunk by chunk. It keeps half a second of history and looks
/// for beats in the low band (bass and drums); the same beat is never reported twice.
///
/// Samples are fixed point, see [`Sample`]. Each chunk comes with its band-passed copy: the
/// low band of the same samples, filtered by the caller with a filter whose state carries
/// over from chunk to chunk (see [`BandAnalyzer`]). The sampling rate stays the same for the
/// whole stream.
pub struct BeatDetector {
    /// The recent audio and the stream's time bookkeeping.
    audio_history: AudioHistory<AUDIO_HISTORY_DEFAULT_BUFFER_SIZE>,
    /// The envelopes of the latest beats, at most [`BEAT_HISTORY_LEN`].
    beat_history: RingBufferWithSerialSliceAccess<Option<Envelope>, BEAT_HISTORY_LEN>,
    /// Looks for beats in the low band.
    low_band_analyzer: BandAnalyzer<AUDIO_HISTORY_DEFAULT_BUFFER_SIZE>,
}

impl BeatDetector {
    /// The internal invariant.
    pub closed spec fn wf(&self) -> bool {
        &&& self.audio_history.wf()
        &&& self.beat_history.wf()
        &&& self.low_band_analyzer.wf()
        &&& self.low_band_analyzer.band_samples().len() == self.audio_history.spec_meta().len()
        &&& self.low_band_analyzer.detector().settled_in(self.audio_history.spec_meta())
    }

    /// The stream's bookkeeping.
    pub closed spec fn history(&self) -> HistoryModel {
        self.audio_history.spec_meta()
    }

    /// Every sample consumed so far.
    pub closed spec fn stream(&self) -> Seq<Sample> {
        self.audio_history.stream()
    }

    /// The envelopes of the latest beats, oldest first.
    pub closed spec fn recent_beats(&self) -> Seq<Option<Envelope>> {
        self.beat_history@
    }

    /// The state of the envelope detection.
    pub closed spec fn detector(&self) -> EnvelopeDetector {
        self.low_band_analyzer.detector()
    }

    /// The band-passed window.
    pub closed spec fn band_samples(&self) -> Seq<Sample> {
        self.low_band_analyzer.band_samples()
    }

    /// Number in the stream of the sample where the latest beat ended, 0 if none.
    pub open spec fn last_beat_end(&self) -> int {
        self.detector().last_end_position()
    }

    /// A detector for a stream sampled at `sampling_rate` Hz. The low band reaches 70 Hz, so
    /// the rate must be at least 140 Hz.
    pub fn new(sampling_rate: u32) -> (r: Result<Self, BandAnalyzerError>)
        ensures
            sampling_rate < 2 * LOW_BAND_HIGHER_FREQUENCY ==> r
                == Err::<Self, BandAnalyzerError>(BandAnalyzerError::AboveNyquist),
            sampling_rate >= 2 * LOW_BAND_HIGHER_FREQUENCY ==> r is Ok,
            r matches Ok(d) ==> {
                &&& d.wf()
                &&& d.history() == HistoryModel::initial(
                    AUDIO_HISTORY_DEFAULT_BUFFER_SIZE as nat,
                    sampling_rate as nat,
                )
                &&& d.stream() == Seq::<Sample>::empty()
                &&& d.recent_beats() == Seq::<Option<Envelope>>::empty()
                &&& d.last_beat_end() == 0
            },
    {
        let low_band_analyzer = match BandAnalyzer::new_low(sampling_rate) {
            Ok(a) => a,
            Err(e) => {
                return Err(e);
            },
        };
        Ok(
            Self {
                audio_history: AudioHistory::new(sampling_rate),
                beat_history: RingBufferWithSerialSliceAccess::new(),
                low_band_analyzer,
            },
        )
    }

    /// Number of samples consumed so far.
    pub fn amount_total_samples(&self) -> (r: u64)
        ensures
            r == self.history().total,
    {
        self.audio_history.amount_total_samples()
    }

    /// The sampling rate in Hz.
    pub fn sampling_rate(&self) -> (r: u32)
        requires
            self.wf(),
        ensures
            r == self.history().sampling_rate,
    {
        self.audio_history.meta().sampling_rate()
    }

    /// Takes in the next chunk of audio, `new_audio_data`, with its band-passed copy
    /// `band_passed_samples`, and reports a beat if one was found: its envelope, the low band
    /// and a placeholder for the beats per minute. A reported beat begins after the previous
    /// one ended.
    pub fn on_new_audio(&mut self, new_audio_data: &[Sample], band_passed_samples: &[Sample]) -> (r:
        Option<BeatInfo>)
        requires
            old(self).wf(),
            within_full_scale(new_audio_data@),
            band_passed_samples@.len() == new_audio_data@.len(),
            old(self).history().total + new_audio_data@.len() <= MAX_STREAM_SAMPLES,
        ensures
            final(self).wf(),
            final(self).history() == old(self).history().updated(new_audio_data@.len()),
            final(self).stream() == old(self).stream() + new_audio_data@,
            final(self).band_samples() == keep_newest(
                old(self).band_samples() + band_passed_samples@,
                AUDIO_HISTORY_DEFAULT_BUFFER_SIZE as nat,
            ),
            ({
                let env: Option<Envelope> = match r {
                    Some(info) => Some(info.spec_envelope()),
                    None => None,
                };
                EnvelopeDetector::detection(
                    old(self).detector(),
                    final(self).detector(),
                    final(self).history(),
                    final(self).band_samples(),
                    env,
                )
            }),
            r matches Some(info) ==> info.spec_frequency_band() == FrequencyBand::Low
                && info.spec_bpm() == PLACEHOLDER_BPM,
            r matches Some(info) ==> old(self).last_beat_end()
                < info.spec_envelope().spec_begin().spec_sample_number(),
            r matches Some(info) ==> final(self).recent_beats() == keep_newest(
                old(self).recent_beats().push(Some(info.spec_envelope())),
                BEAT_HISTORY_LEN as nat,
            ),
            r is None ==> final(self).recent_beats() == old(self).recent_beats(),
    {
        let ghost before = self.audio_history.spec_meta();
        proof {
            self.audio_history.lemma_meta_wf();
        }
        self.audio_history.update(new_audio_data);
        let meta = self.audio_history.meta();
        proof {
            lemma_settled_then_ready(self.low_band_analyzer.detector(), before, new_audio_data@.len());
            crate::audio_history::lemma_len_after_update(before, new_audio_data@.len());
            if before.len() > 0 {
                crate::audio_history::lemma_index_translation(before, new_audio_data@.len(), 0);
            }
        }
        let envelope = match self.low_band_analyzer.detect_envelope(band_passed_samples, &meta) {
            Some(e) => e,
            None => {
                return None;
            },
        };
        self.beat_history.push(Some(envelope));
        Some(BeatInfo::new(PLACEHOLDER_BPM, FrequencyBand::Low, envelope))
    }
}

} // verus!
