//! The record of a detected beat.
use crate::envelope_detector::Envelope;
use vstd::prelude::*;

verus! {

/// The frequency band a beat was found in.
#[derive(Debug, Clone, Copy, PartialEq, Eq, Structural)]
pub enum FrequencyBand {
    /// 25 to 70 Hz: bass.
    Low,
    /// 80 to 250 Hz: claps.
    Middle,
}

/// A detected beat: its frequency band, its beats per minute and its envelope.
#[derive(Debug, Clone, Copy, PartialEq, Eq, Structural)]
pub struct BeatInfo {
    /// Beats per minute, 0 to 255. Not computed yet: a fixed placeholder.
    bpm: u8,
    envelope: Envelope,
    /// The band the beat was found in: a low beat (drums) or a higher one (claps).
    frequency_band: FrequencyBand,
}

impl BeatInfo {
    /// Beats per minute.
    pub closed spec fn spec_bpm(&self) -> u8 {
        self.bpm
    }

    /// The envelope of the beat.
    pub closed spec fn spec_envelope(&self) -> Envelope {
        self.envelope
    }

    /// The frequency band of the beat.
    pub closed spec fn spec_frequency_band(&self) -> FrequencyBand {
        self.frequency_band
    }

    /// A beat record.
    pub(crate) fn new(bpm: u8, frequency_band: FrequencyBand, envelope: Envelope) -> (r: Self)
        ensures
            r.spec_bpm() == bpm,
            r.spec_frequency_band() == frequency_band,
            r.spec_envelope() == envelope,
    {
        Self { bpm, frequency_band, envelope }
    }

    /// Beats per minute, 0 to 255.
    pub fn bpm(&self) -> (r: u8)
        ensures
            r == self.spec_bpm(),
    {
        self.bpm
    }

    /// The frequency band of the beat.
    pub fn frequency_band(&self) -> (r: FrequencyBand)
        ensures
            r == self.spec_frequency_band(),
    {
        self.frequency_band
    }

    /// The envelope of the beat.
    pub fn envelope(&self) -> (r: Envelope)
        ensures
            r == self.spec_envelope(),
    {
        self.envelope
    }

    /// The time of the beat's highest peak in milliseconds since the start of the stream.
    pub fn time_of_beat(&self) -> (r: u64)
        ensures
            r == self.spec_envelope().spec_highest().spec_relative_time(),
    {
        self.envelope.highest().relative_time()
    }
}

} // verus!
