//! Beat detection within one frequency band.
use crate::audio_history::AudioHistoryMeta;
use crate::envelope_detector::{Envelope, EnvelopeDetector};
use crate::sample::Sample;
use crate::util::audio_ring_buffer::{keep_newest, RingBufferWithSerialSliceAccess};
use vstd::prelude::*;

verus! {

/// Lower edge of the low band in Hz: bass and kick drums.
pub const LOW_BAND_LOWER_FREQUENCY: u32 = 25;

/// Upper edge of the low band in Hz.
pub const LOW_BAND_HIGHER_FREQUENCY: u32 = 70;

/// Why band edges are refused.
#[derive(Debug, Clone, Copy, PartialEq, Eq, Structural)]
pub enum BandAnalyzerError {
    /// The lower edge is 0 Hz.
    ZeroLowerFrequency,
    /// The lower edge is not below the higher one.
    InvertedBand,
    /// The higher edge lies above half the sampling rate (the Nyquist frequency).
    AboveNyquist,
}

/// The error for band edges `lower`..`higher` at `sampling_frequency`, if any, checked in this
/// order: a zero lower edge, an inverted band, a higher edge above the Nyquist frequency.
pub open spec fn band_error(lower: nat, higher: nat, sampling_frequency: nat) -> Option<
    BandAnalyzerError,
> {
    if lower == 0 {
        Some(BandAnalyzerError::ZeroLowerFrequency)
    } else if lower >= higher {
        Some(BandAnalyzerError::InvertedBand)
    } else if 2 * higher > sampling_frequency {
        Some(BandAnalyzerError::AboveNyquist)
    } else {
        None
    }
}

/// Detects beats within one frequency band. It keeps the band-passed signal of the window in
/// a buffer of its own, as long as the audio history, and hands it to an
/// [`EnvelopeDetector`], which never reports the same beat twice.
///
/// The band-pass filter itself (a high-pass at the lower edge followed by a low-pass at the
/// higher edge, whose state carries over from chunk to chunk) works on floating point and is
/// run by the caller, which hands in each chunk filtered.
pub struct BandAnalyzer<const N: usize> {
    /// Lower edge of the band in Hz.
    lower_frequency: u32,
    /// Higher edge of the band in Hz.
    higher_frequency: u32,
    /// Sampling rate of the stream in Hz.
    sampling_frequency: u32,
    /// The band-passed signal of the window, oldest first.
    band_pass_samples: RingBufferWithSerialSliceAccess<Sample, N>,
    envelope_detector: EnvelopeDetector,
}

impl<const N: usize> BandAnalyzer<N> {
    /// The internal invariant.
    pub closed spec fn wf(&self) -> bool {
        &&& self.band_pass_samples.wf()
        &&& band_error(
            self.lower_frequency as nat,
            self.higher_frequency as nat,
            self.sampling_frequency as nat,
        ) is None
    }

    /// The band-passed signal held, oldest first.
    pub closed spec fn band_samples(&self) -> Seq<Sample> {
        self.band_pass_samples@
    }

    /// The state of the envelope detection.
    pub closed spec fn detector(&self) -> EnvelopeDetector {
        self.envelope_detector
    }

    /// Lower edge of the band in Hz.
    pub closed spec fn spec_lower_frequency(&self) -> nat {
        self.lower_frequency as nat
    }

    /// Higher edge of the band in Hz.
    pub closed spec fn spec_higher_frequency(&self) -> nat {
        self.higher_frequency as nat
    }

    /// Sampling rate in Hz.
    pub closed spec fn spec_sampling_frequency(&self) -> nat {
        self.sampling_frequency as nat
    }

    /// An analyzer for the band `lower_frequency`..`higher_frequency` Hz of a stream sampled
    /// at `sampling_frequency` Hz. The band must satisfy
    /// `0 < lower < higher <= sampling_frequency / 2`.
    pub fn new(lower_frequency: u32, higher_frequency: u32, sampling_frequency: u32) -> (r: Result<
        Self,
        BandAnalyzerError,
    >)
        requires
            N > 0,
        ensures
            band_error(lower_frequency as nat, higher_frequency as nat, sampling_frequency as nat)
                matches Some(e) ==> r == Err::<Self, BandAnalyzerError>(e),
            r matches Ok(a) ==> {
                &&& band_error(
                    lower_frequency as nat,
                    higher_frequency as nat,
                    sampling_frequency as nat,
                ) is None
                &&& a.wf()
                &&& a.band_samples() == Seq::<Sample>::empty()
                &&& a.detector().previous_end() is None
                &&& a.detector().last_end_position() == 0
                &&& a.spec_lower_frequency() == lower_frequency
                &&& a.spec_higher_frequency() == higher_frequency
                &&& a.spec_sampling_frequency() == sampling_frequency
            },
            band_error(lower_frequency as nat, higher_frequency as nat, sampling_frequency as nat)
                is None ==> r is Ok,
    {
        if lower_frequency == 0 {
            return Err(BandAnalyzerError::ZeroLowerFrequency);
        }
        if lower_frequency >= higher_frequency {
            return Err(BandAnalyzerError::InvertedBand);
        }
        if higher_frequency as u64 * 2 > sampling_frequency as u64 {
            return Err(BandAnalyzerError::AboveNyquist);
        }
        Ok(
            Self {
                lower_frequency,
                higher_frequency,
                sampling_frequency,
                band_pass_samples: RingBufferWithSerialSliceAccess::new(),
                envelope_detector: EnvelopeDetector::new(),
            },
        )
    }

    /// An analyzer for the low band, 25 to 70 Hz, where bass and kick drums are found.
    pub fn new_low(sampling_rate: u32) -> (r: Result<Self, BandAnalyzerError>)
        requires
            N > 0,
        ensures
            sampling_rate < 2 * LOW_BAND_HIGHER_FREQUENCY ==> r
                == Err::<Self, BandAnalyzerError>(BandAnalyzerError::AboveNyquist),
            r matches Ok(a) ==> {
                &&& a.wf()
                &&& a.band_samples() == Seq::<Sample>::empty()
                &&& a.detector().previous_end() is None
                &&& a.detector().last_end_position() == 0
                &&& a.spec_lower_frequency() == LOW_BAND_LOWER_FREQUENCY
                &&& a.spec_higher_frequency() == LOW_BAND_HIGHER_FREQUENCY
                &&& a.spec_sampling_frequency() == sampling_rate
            },
            sampling_rate >= 2 * LOW_BAND_HIGHER_FREQUENCY ==> r is Ok,
    {
        Self::new(LOW_BAND_LOWER_FREQUENCY, LOW_BAND_HIGHER_FREQUENCY, sampling_rate)
    }

    /// Lower edge of the band in Hz.
    pub fn lower_frequency(&self) -> (r: u32)
        ensures
            r == self.spec_lower_frequency(),
    {
        self.lower_frequency
    }

    /// Higher edge of the band in Hz.
    pub fn higher_frequency(&self) -> (r: u32)
        ensures
            r == self.spec_higher_frequency(),
    {
        self.higher_frequency
    }

    /// Sampling rate in Hz.
    pub fn sampling_frequency(&self) -> (r: u32)
        ensures
            r == self.spec_sampling_frequency(),
    {
        self.sampling_frequency
    }

    /// Takes in the latest chunk of the stream, band-passed, and looks for an envelope in the
    /// band-passed window. `audio_meta` describes the window after the chunk was added: the
    /// chunk is the latest update and the buffer held the window before it.
    pub fn detect_envelope(
        &mut self,
        band_passed_samples: &[Sample],
        audio_meta: &AudioHistoryMeta,
    ) -> (r: Option<Envelope>)
        requires
            old(self).wf(),
            audio_meta.wf(),
            audio_meta@.capacity == N,
            band_passed_samples@.len() == audio_meta@.latest,
            old(self).band_samples().len() == audio_meta@.len_before_latest_update(),
            old(self).detector().ready_for(audio_meta@),
        ensures
            final(self).wf(),
            final(self).band_samples() == keep_newest(
                old(self).band_samples() + band_passed_samples@,
                N as nat,
            ),
            final(self).band_samples().len() == audio_meta@.len(),
            EnvelopeDetector::detection(
                old(self).detector(),
                final(self).detector(),
                audio_meta@,
                final(self).band_samples(),
                r,
            ),
            final(self).spec_lower_frequency() == old(self).spec_lower_frequency(),
            final(self).spec_higher_frequency() == old(self).spec_higher_frequency(),
            final(self).spec_sampling_frequency() == old(self).spec_sampling_frequency(),
    {
        self.band_pass_samples.extend_from_slice(band_passed_samples);
        let band_passed_samples_slice = self.band_pass_samples.continuous_slice();
        self.envelope_detector.detect_envelope(audio_meta, band_passed_samples_slice)
    }
}

} // verus!
