//! Peaks: the local extrema of a signal that stand out of the noise, stamped with their time.
pub mod local_min_max_iterator;
pub mod peak_detector;
pub mod zero_of_function_iterator;

use crate::audio_history::{AudioHistoryMeta, HistoryModel};
use crate::peak::local_min_max_iterator::LocalMinMax;
use crate::sample::{abs, div_round, round_to_thousandths, signed_div_round, Sample};
use vstd::prelude::*;

verus! {

/// The duration of `n` samples at `sampling_rate` Hz, in milliseconds, rounded to nearest.
pub open spec fn millis_of(n: nat, sampling_rate: nat) -> nat {
    div_round(n * 1000, sampling_rate)
}

/// A local minimum or maximum of the signal, with the time at which it occurred. Time and
/// value are rounded to three decimal places: the time in milliseconds, the value in
/// thousandths of full scale. Peaks are ordered by time; the sample's number in the stream
/// gives that order exactly.
#[derive(Debug, Clone, Copy, PartialEq, Eq, Structural)]
pub struct Peak {
    /// Number of the sample in the stream, counted from 1.
    sample_number: u64,
    /// Time since the start of the stream in milliseconds, rounded.
    relative_time: u64,
    /// The value in thousandths of full scale, rounded.
    value: i32,
}

impl Peak {
    /// Number of the sample in the stream, counted from 1.
    pub closed spec fn spec_sample_number(&self) -> nat {
        self.sample_number as nat
    }

    /// Time since the start of the stream in milliseconds.
    pub closed spec fn spec_relative_time(&self) -> nat {
        self.relative_time as nat
    }

    /// The value in thousandths of full scale.
    pub closed spec fn spec_value(&self) -> int {
        self.value as int
    }

    /// The peak at `sample_index` of the current window of the history that `audio_meta`
    /// describes, with sample value `value`.
    pub fn new(sample_index: usize, value: Sample, audio_meta: &AudioHistoryMeta) -> (r: Self)
        requires
            audio_meta.wf(),
            sample_index < audio_meta@.len(),
        ensures
            r.spec_sample_number() == audio_meta@.position(sample_index as int),
            r.spec_relative_time() == millis_of(
                audio_meta@.position(sample_index as int) as nat,
                audio_meta@.sampling_rate,
            ),
            r.spec_value() == signed_div_round(value as int, 1000),
    {
        let sample_number = audio_meta.position(sample_index);
        let rate = audio_meta.sampling_rate() as u64;
        let relative_time = (2 * sample_number * 1000 + rate) / (2 * rate);
        Self { sample_number, relative_time, value: round_to_thousandths(value) }
    }

    /// The value in thousandths of full scale, rounded.
    pub fn value(&self) -> (r: i32)
        ensures
            r == self.spec_value(),
    {
        self.value
    }

    /// The absolute value in thousandths of full scale.
    pub fn abs_value(&self) -> (r: u32)
        ensures
            r == abs(self.spec_value()),
    {
        if self.value < 0 {
            (-(self.value as i64)) as u32
        } else {
            self.value as u32
        }
    }

    /// The time since the start of the stream in milliseconds, rounded.
    pub fn relative_time(&self) -> (r: u64)
        ensures
            r == self.spec_relative_time(),
    {
        self.relative_time
    }

    /// The number of the sample in the stream, counted from 1.
    pub fn sample_number(&self) -> (r: u64)
        ensures
            r == self.spec_sample_number(),
    {
        self.sample_number
    }

    /// Whether this peak occurred before `other`.
    pub fn is_before(&self, other: &Peak) -> (r: bool)
        ensures
            r == (self.spec_sample_number() < other.spec_sample_number()),
    {
        self.sample_number < other.sample_number
    }
}

/// A [`Peak`] with where it was found: its index in the analysed samples and its number among
/// the peaks of that analysis. Both hold for one analysis only: once new audio arrives, the
/// indices shift.
#[derive(Debug, Clone, Copy, PartialEq, Eq, Structural)]
pub struct InternalPeak {
    /// Index of the sample in the analysed samples.
    pub sample_index: usize,
    /// Number of the peak among the peaks of the analysis: later peaks have higher numbers.
    pub peak_number: usize,
    /// The peak itself.
    pub peak: Peak,
}

/// `p` is the peak made of the extremum `m` of the window that `meta` describes.
pub open spec fn is_peak_of(p: Peak, m: LocalMinMax, meta: HistoryModel) -> bool {
    &&& p.spec_sample_number() == meta.position(m.index as int)
    &&& p.spec_relative_time() == millis_of(
        meta.position(m.index as int) as nat,
        meta.sampling_rate,
    )
    &&& p.spec_value() == signed_div_round(m.value as int, 1000)
}

/// `p` is the peak numbered `k` made of the extremum `m` of the window that `meta` describes.
pub open spec fn describes(p: InternalPeak, m: LocalMinMax, k: int, meta: HistoryModel) -> bool {
    &&& p.sample_index == m.index
    &&& p.peak_number == k
    &&& is_peak_of(p.peak, m, meta)
}

impl InternalPeak {
    /// The peak numbered `peak_number` at `sample_index` of the window that `audio_meta`
    /// describes, with sample value `value`.
    pub fn new(
        sample_index: usize,
        value: Sample,
        peak_number: usize,
        audio_meta: &AudioHistoryMeta,
    ) -> (r: Self)
        requires
            audio_meta.wf(),
            sample_index < audio_meta@.len(),
        ensures
            describes(
                r,
                LocalMinMax { index: sample_index, value },
                peak_number as int,
                audio_meta@,
            ),
    {
        Self { sample_index, peak_number, peak: Peak::new(sample_index, value, audio_meta) }
    }

    /// The peak without where it was found.
    pub fn to_peak(self) -> (r: Peak)
        ensures
            r == self.peak,
    {
        self.peak
    }
}

} // verus!
