//! Detection of beat envelopes in a stream of peaks.
use crate::audio_history::{AudioHistoryMeta, HistoryModel};
use crate::beat_intensity::BeatIntensity;
use crate::peak::local_min_max_iterator::LocalMinMax;
use crate::peak::peak_detector::{
    peak_candidates, peak_list, peak_slice, PeakDetector, MINIMUM_PEAK,
};
use crate::peak::{describes, is_peak_of, InternalPeak, Peak};
use crate::sample::{abs, div_round, signed_div_round, Sample};
use vstd::prelude::*;

verus! {

/// How many peaks before the highest one the search for the begin of an envelope looks at.
pub const MAX_PEAK_DISTANCE_TO_BEGIN: usize = 7;

/// A level is significantly smaller than the top level: 2.1 times the level is still below
/// the top. Levels are absolute peak values.
pub open spec fn significantly_smaller(level: nat, top: nat) -> bool {
    level * 21 < top * 10
}

/// The index of the first largest level among the first `n` levels.
pub open spec fn first_max_index(a: Seq<nat>, n: int) -> int
    decreases n,
{
    if n <= 1 {
        0
    } else {
        let m = first_max_index(a, n - 1);
        if a[m] < a[n - 1] {
            n - 1
        } else {
            m
        }
    }
}

/// The begin of the envelope around the top at `top`: going back from `j`, the first level
/// significantly smaller than the top, looking no further back than
/// [`MAX_PEAK_DISTANCE_TO_BEGIN`] levels before the top.
pub open spec fn begin_search(a: Seq<nat>, top: int, j: int) -> Option<int>
    decreases j + 1,
{
    if j < 0 || j < top - MAX_PEAK_DISTANCE_TO_BEGIN {
        None
    } else if significantly_smaller(a[j], a[top]) {
        Some(j)
    } else {
        begin_search(a, top, j - 1)
    }
}

/// The end of the envelope around the top at `top`: going forward from `j`, the first level
/// significantly smaller than the top that is followed by another level.
pub open spec fn end_search(a: Seq<nat>, top: int, j: int) -> Option<int>
    decreases a.len() - j,
{
    if j < 0 || j + 1 >= a.len() {
        None
    } else if significantly_smaller(a[j], a[top]) {
        Some(j)
    } else {
        end_search(a, top, j + 1)
    }
}

/// The envelope in a sequence of peak levels, as the indices of its begin, top and end: the
/// top is the first largest level, and both a begin and an end must be found around it.
pub open spec fn envelope_indices(a: Seq<nat>) -> Option<(int, int, int)> {
    if a.len() == 0 {
        None
    } else {
        let top = first_max_index(a, a.len() as int);
        match (begin_search(a, top, top - 1), end_search(a, top, top + 1)) {
            (Some(b), Some(e)) => Some((b, top, e)),
            _ => None,
        }
    }
}

/// The levels of peaks: their absolute values in thousandths of full scale.
pub open spec fn peak_levels(p: Seq<InternalPeak>) -> Seq<nat> {
    Seq::new(p.len(), |k: int| abs(p[k].peak.spec_value()))
}

/// The levels that the extrema `c` get as peaks: their absolute values rounded to thousandths.
pub open spec fn candidate_levels(c: Seq<LocalMinMax>) -> Seq<nat> {
    Seq::new(c.len(), |k: int| div_round(abs(c[k].value as int), 1000))
}

/// Where a search resumes after an update, given the end of the previous envelope in the
/// window before the update: that index moved down by the evicted samples, or nothing when
/// it left the window.
pub open spec fn translated_start(previous: Option<usize>, m: HistoryModel) -> Option<usize> {
    match previous {
        Some(i) => if i < m.evicted {
            None
        } else {
            Some((i - m.evicted) as usize)
        },
        None => None,
    }
}

/// A beat envelope: the peak where the beat begins, its highest peak and the peak where it
/// ends. The highest peak lies strictly between the two in time and both are significantly
/// smaller than it. Clarities and the intensity are in thousandths, rounded.
#[derive(Debug, Clone, Copy, PartialEq, Eq, Structural)]
pub struct Envelope {
    begin: Peak,
    highest: Peak,
    end: Peak,
    intensity: BeatIntensity,
    /// Ratio of the highest value to the begin value, in thousandths.
    clarity_begin: u64,
    /// Ratio of the highest value to the end value, in thousandths.
    clarity_end: u64,
}

impl Envelope {
    /// The begin peak.
    pub closed spec fn spec_begin(&self) -> Peak {
        self.begin
    }

    /// The highest peak.
    pub closed spec fn spec_highest(&self) -> Peak {
        self.highest
    }

    /// The end peak.
    pub closed spec fn spec_end(&self) -> Peak {
        self.end
    }

    /// The intensity in thousandths.
    pub closed spec fn spec_intensity(&self) -> nat {
        self.intensity.spec_val()
    }

    /// The begin clarity in thousandths.
    pub closed spec fn spec_clarity_begin(&self) -> nat {
        self.clarity_begin as nat
    }

    /// The end clarity in thousandths.
    pub closed spec fn spec_clarity_end(&self) -> nat {
        self.clarity_end as nat
    }

    /// The shape of an envelope: begin, highest and end peak in this order of time, and the
    /// begin and end peak significantly smaller than the highest.
    pub open spec fn is_envelope_shape(begin: Peak, highest: Peak, end: Peak) -> bool {
        &&& begin.spec_sample_number() < highest.spec_sample_number()
        &&& highest.spec_sample_number() < end.spec_sample_number()
        &&& significantly_smaller(abs(begin.spec_value()), abs(highest.spec_value()))
        &&& significantly_smaller(abs(end.spec_value()), abs(highest.spec_value()))
    }

    /// The envelope has the shape of an envelope and its derived values.
    pub open spec fn wf(&self) -> bool {
        &&& Self::is_envelope_shape(self.spec_begin(), self.spec_highest(), self.spec_end())
        &&& self.spec_intensity() == abs(self.spec_highest().spec_value())
        &&& self.spec_clarity_begin() == div_round(
            abs(self.spec_highest().spec_value()) * 1000,
            abs(self.spec_begin().spec_value()),
        )
        &&& self.spec_clarity_end() == div_round(
            abs(self.spec_highest().spec_value()) * 1000,
            abs(self.spec_end().spec_value()),
        )
    }

    /// The envelope of the given peaks.
    fn new(begin: Peak, end: Peak, highest: Peak) -> (r: Self)
        requires
            Self::is_envelope_shape(begin, highest, end),
            abs(begin.spec_value()) >= 1,
            abs(end.spec_value()) >= 1,
        ensures
            r.wf(),
            r.spec_begin() == begin,
            r.spec_highest() == highest,
            r.spec_end() == end,
    {
        let top = highest.abs_value() as u64;
        let b = begin.abs_value() as u64;
        let e = end.abs_value() as u64;
        let clarity_begin = (2 * top * 1000 + b) / (2 * b);
        let clarity_end = (2 * top * 1000 + e) / (2 * e);
        Self {
            begin,
            highest,
            end,
            intensity: BeatIntensity::new(highest.abs_value()),
            clarity_begin,
            clarity_end,
        }
    }

    /// The peak where the beat begins.
    pub fn begin(&self) -> (r: Peak)
        ensures
            r == self.spec_begin(),
    {
        self.begin
    }

    /// The highest peak of the beat.
    pub fn highest(&self) -> (r: Peak)
        ensures
            r == self.spec_highest(),
    {
        self.highest
    }

    /// The peak where the beat ends.
    pub fn end(&self) -> (r: Peak)
        ensures
            r == self.spec_end(),
    {
        self.end
    }

    /// The intensity: the absolute value of the highest peak.
    pub fn intensity(&self) -> (r: BeatIntensity)
        ensures
            r.spec_val() == self.spec_intensity(),
    {
        self.intensity
    }

    /// Ratio of the highest to the begin value, in thousandths, rounded.
    pub fn clarity_begin(&self) -> (r: u64)
        ensures
            r == self.spec_clarity_begin(),
    {
        self.clarity_begin
    }

    /// Ratio of the highest to the end value, in thousandths, rounded.
    pub fn clarity_end(&self) -> (r: u64)
        ensures
            r == self.spec_clarity_end(),
    {
        self.clarity_end
    }
}

/// Finds beat envelopes in a signal that arrives chunk by chunk: a sudden rise to a highest
/// peak and the fall after it. To keep latency low it does not wait for the signal to die
/// away: the first peak small enough after the highest one ends the envelope.
///
/// The detector remembers where the previous envelope ended and only searches after it, so
/// envelopes never overlap and no beat is reported twice.
pub struct EnvelopeDetector {
    /// Index, in the window of the previous call, of the end of the previous envelope.
    previous_envelope_end_peak_index: Option<usize>,
    /// Number in the stream of the sample where the previous envelope ended (0 if none).
    last_end: Ghost<int>,
}

impl EnvelopeDetector {
    /// Index of the end of the previous envelope in the window of the previous call.
    pub closed spec fn previous_end(&self) -> Option<usize> {
        self.previous_envelope_end_peak_index
    }

    /// Number in the stream of the sample where the previous envelope ended, 0 if none.
    pub closed spec fn last_end_position(&self) -> int {
        self.last_end@
    }

    /// The state fits a window one update after the one it was left in: the remembered index
    /// pointed into the window before the update, at the end of the previous envelope; or
    /// everything in the window lies after that end.
    pub open spec fn ready_for(&self, m: HistoryModel) -> bool {
        match self.previous_end() {
            Some(i) => i < m.len_before_latest_update() && m.position_before_latest_update(i as int)
                == self.last_end_position(),
            None => self.last_end_position() < m.position(0),
        }
    }

    /// The state fits the window `m` it was left in.
    pub open spec fn settled_in(&self, m: HistoryModel) -> bool {
        match self.previous_end() {
            Some(i) => i < m.len() && m.position(i as int) == self.last_end_position(),
            None => self.last_end_position() < m.position(0),
        }
    }

    /// What one detection on the window `s`, which `m` describes, does: from the state
    /// `before` to the state `after`, with result `r`. The search resumes after the end of the
    /// previous envelope; an envelope is returned exactly when one is found among the peaks
    /// from there on, it has the shape of an envelope, it begins after the previous one ended,
    /// and its end is remembered.
    pub open spec fn detection(
        before: EnvelopeDetector,
        after: EnvelopeDetector,
        m: HistoryModel,
        s: Seq<Sample>,
        r: Option<Envelope>,
    ) -> bool {
        let start = translated_start(before.previous_end(), m);
        let c = peak_candidates(s, start);
        let found = envelope_indices(candidate_levels(c));
        &&& r is Some <==> found is Some
        &&& found matches Some((b, top, e)) ==> r matches Some(env) && is_peak_of(
            env.spec_begin(),
            c[b],
            m,
        ) && is_peak_of(env.spec_highest(), c[top], m) && is_peak_of(env.spec_end(), c[e], m)
            && after.previous_end() == Some(c[e].index)
        &&& found is None ==> after.previous_end() == start
        &&& r matches Some(env) ==> env.wf()
        &&& r matches Some(env) ==> before.last_end_position() < env.spec_begin().spec_sample_number()
        &&& r matches Some(env) ==> after.last_end_position() == env.spec_end().spec_sample_number()
        &&& r is None ==> after.last_end_position() == before.last_end_position()
        &&& after.settled_in(m)
    }

    /// A detector that has seen no envelope yet.
    pub fn new() -> (r: Self)
        ensures
            r.previous_end() is None,
            r.last_end_position() == 0,
    {
        Self { previous_envelope_end_peak_index: None, last_end: Ghost(0) }
    }

    /// Looks for an envelope in `samples`, the window that `audio_meta` describes, after the
    /// end of the previous envelope (which was recorded against the window one update
    /// earlier). Finds the highest peak, then searches back for the begin and forward for the
    /// end; when all three are found, the envelope is returned and its end remembered.
    pub fn detect_envelope(&mut self, audio_meta: &AudioHistoryMeta, samples: &[Sample]) -> (r:
        Option<Envelope>)
        requires
            audio_meta.wf(),
            samples@.len() == audio_meta@.len(),
            old(self).ready_for(audio_meta@),
        ensures
            Self::detection(*old(self), *final(self), audio_meta@, samples@, r),
    {
        let ghost m = audio_meta@;
        // resume after the end of the previous envelope; a beat is never analysed twice
        let start_index = match self.previous_envelope_end_peak_index {
            Some(index) => audio_meta.calc_index_after_update(index),
            None => None,
        };
        self.previous_envelope_end_peak_index = start_index;
        let peak_vec = PeakDetector::detect_peaks(samples, audio_meta, start_index);
        let peaks = peak_slice(&peak_vec);
        let ghost c = peak_candidates(samples@, start_index);
        let ghost lower: int = match start_index {
            Some(i) => i as int,
            None => -1,
        };
        proof {
            assert(peak_levels(peaks@) =~= candidate_levels(c)) by {
                assert forall|k: int| 0 <= k < peaks@.len() implies abs(
                    peaks@[k].peak.spec_value(),
                ) == div_round(abs(c[k].value as int), 1000) by {
                    assert(describes(peak_list(peak_vec)[k], c[k], k, m));
                }
            }
            assert forall|k: int, l: int| 0 <= k < l < peaks@.len() implies
                #[trigger] peaks@[k].peak.spec_sample_number()
                < #[trigger] peaks@[l].peak.spec_sample_number() by {
                assert(describes(peak_list(peak_vec)[k], c[k], k, m));
                assert(describes(peak_list(peak_vec)[l], c[l], l, m));
            }
            assert forall|k: int| 0 <= k < peaks@.len() implies #[trigger] peaks@[k].peak_number
                == k && abs(peaks@[k].peak.spec_value()) >= 50 && lower
                < peaks@[k].sample_index < m.len() && m.position(peaks@[k].sample_index as int)
                == peaks@[k].peak.spec_sample_number() by {
                assert(describes(peak_list(peak_vec)[k], c[k], k, m));
                lemma_noise_floor_level(samples@[peaks@[k].sample_index as int] as int);
            }
        }
        proof {
            if peaks@.len() > 0 {
                lemma_first_max_index(peak_levels(peaks@), peaks@.len() as int);
            }
        }
        let max_peak = match self.find_max_abs(peaks) {
            Some(p) => p,
            None => {
                return None;
            },
        };
        let begin = match Self::find_envelope_begin(peaks, &max_peak) {
            Some(p) => p,
            None => {
                return None;
            },
        };
        let end = match Self::find_envelope_end(peaks, &max_peak) {
            Some(p) => p,
            None => {
                return None;
            },
        };
        proof {
            let top = first_max_index(peak_levels(peaks@), peaks@.len() as int);
            lemma_begin_search(peak_levels(peaks@), top, top - 1);
            lemma_end_search(peak_levels(peaks@), top, top + 1);
        }
        let envelope = Envelope::new(begin.peak, end.peak, max_peak.peak);
        self.previous_envelope_end_peak_index = Some(end.sample_index);
        self.last_end = Ghost(end.peak.spec_sample_number() as int);
        Some(envelope)
    }

    /// The first peak of largest absolute value, if there are peaks.
    fn find_max_abs(&self, peaks: &[InternalPeak]) -> (r: Option<InternalPeak>)
        ensures
            r is None <==> peaks@.len() == 0,
            r matches Some(p) ==> p == peaks@[first_max_index(
                peak_levels(peaks@),
                peaks@.len() as int,
            )],
    {
        let ghost a = peak_levels(peaks@);
        if peaks.len() == 0 {
            return None;
        }
        let mut best: usize = 0;
        let mut i: usize = 1;
        while i < peaks.len()
            invariant
                a == peak_levels(peaks@),
                1 <= i <= peaks@.len(),
                best == first_max_index(a, i as int),
                best < i,
            decreases peaks@.len() - i,
        {
            if peaks[best].peak.abs_value() < peaks[i].peak.abs_value() {
                best = i;
            }
            i = i + 1;
        }
        Some(peaks[best])
    }

    /// The begin of the envelope around `max_peak`: among the peaks just before it, closest
    /// first and at most [`MAX_PEAK_DISTANCE_TO_BEGIN`] of them, the first one significantly
    /// smaller than it. A beat rises suddenly from a low level.
    fn find_envelope_begin(peaks: &[InternalPeak], max_peak: &InternalPeak) -> (r: Option<
        InternalPeak,
    >)
        requires
            max_peak.peak_number < peaks@.len(),
            peaks@[max_peak.peak_number as int] == *max_peak,
        ensures
            ({
                let top = max_peak.peak_number as int;
                let found = begin_search(peak_levels(peaks@), top, top - 1);
                &&& r is Some <==> found is Some
                &&& found matches Some(b) ==> r == Some(peaks@[b])
            }),
    {
        let ghost a = peak_levels(peaks@);
        let top = max_peak.peak_number;
        let top_level = max_peak.peak.abs_value() as u64;
        let mut j = top;
        let mut steps: usize = 0;
        while j > 0 && steps < MAX_PEAK_DISTANCE_TO_BEGIN
            invariant
                a == peak_levels(peaks@),
                top < peaks@.len(),
                j <= top,
                top == max_peak.peak_number,
                top_level <= u32::MAX,
                steps == top - j,
                top_level == a[top as int],
                begin_search(a, top as int, top - 1) == begin_search(a, top as int, j - 1),
            decreases j,
        {
            let candidate = peaks[j - 1];
            assert(a[j - 1] == abs(peaks@[j - 1].peak.spec_value()));
            if (candidate.peak.abs_value() as u64) * 21 < top_level * 10 {
                assert(j - 1 >= top - MAX_PEAK_DISTANCE_TO_BEGIN);
                assert(begin_search(a, top as int, j - 1) == Some(j - 1));
                return Some(candidate);
            }
            j = j - 1;
            steps = steps + 1;
        }
        None
    }

    /// The end of the envelope around `max_peak`: after it, the first peak significantly
    /// smaller than it, unless the peaks are still decaying. Peaks are ordered by time and a
    /// later peak never precedes the current one, so the decay check passes at once and the
    /// first small peak that has a successor ends the envelope.
    fn find_envelope_end(peaks: &[InternalPeak], max_peak: &InternalPeak) -> (r: Option<
        InternalPeak,
    >)
        requires
            max_peak.peak_number < peaks@.len(),
            peaks@[max_peak.peak_number as int] == *max_peak,
            forall|k: int, l: int|
                0 <= k < l < peaks@.len() ==> #[trigger] peaks@[k].peak.spec_sample_number()
                    < #[trigger] peaks@[l].peak.spec_sample_number(),
        ensures
            ({
                let top = max_peak.peak_number as int;
                let found = end_search(peak_levels(peaks@), top, top + 1);
                &&& r is Some <==> found is Some
                &&& found matches Some(e) ==> r == Some(peaks@[e])
            }),
    {
        let ghost a = peak_levels(peaks@);
        let n = peaks.len();
        let top_level = max_peak.peak.abs_value() as u64;
        let mut j = max_peak.peak_number + 1;
        assert(n >= 1);
        // skip the peaks that are not small enough yet
        while j < n - 1 && (peaks[j].peak.abs_value() as u64) * 21 >= top_level * 10
            invariant
                a == peak_levels(peaks@),
                n >= 1,
                top_level <= u32::MAX,
                n == peaks@.len(),
                max_peak.peak_number < j <= n,
                top_level == a[max_peak.peak_number as int],
                end_search(a, max_peak.peak_number as int, max_peak.peak_number + 1) == end_search(
                    a,
                    max_peak.peak_number as int,
                    j as int,
                ),
            decreases n - j,
        {
            j = j + 1;
        }
        // skip while the next peak does not come after the current one, unless it is the last
        while j < n - 1 && !peaks[j].peak.is_before(&peaks[j + 1].peak) && j != n - 2
            invariant
                a == peak_levels(peaks@),
                n >= 1,
                n == peaks@.len(),
                max_peak.peak_number < j <= n,
                forall|k: int, l: int|
                    0 <= k < l < peaks@.len() ==> #[trigger] peaks@[k].peak.spec_sample_number()
                        < #[trigger] peaks@[l].peak.spec_sample_number(),
                end_search(a, max_peak.peak_number as int, max_peak.peak_number + 1) == end_search(
                    a,
                    max_peak.peak_number as int,
                    j as int,
                ),
                j < n - 1 ==> significantly_smaller(a[j as int], a[max_peak.peak_number as int]),
            decreases n - j,
        {
            j = j + 1;
        }
        if j < n - 1 {
            Some(peaks[j])
        } else {
            None
        }
    }
}

/// Envelopes found by successive detections on one stream never overlap, so no beat is
/// reported twice: when one detection returns `first` and a later one returns `second`, with
/// any number of detections in between that found nothing (they keep the remembered end),
/// `second` begins after `first` ended.
pub proof fn lemma_envelopes_do_not_overlap(
    d0: EnvelopeDetector,
    d1: EnvelopeDetector,
    m1: HistoryModel,
    s1: Seq<Sample>,
    first: Envelope,
    d2: EnvelopeDetector,
    d3: EnvelopeDetector,
    m2: HistoryModel,
    s2: Seq<Sample>,
    second: Envelope,
)
    requires
        EnvelopeDetector::detection(d0, d1, m1, s1, Some(first)),
        d2.last_end_position() == d1.last_end_position(),
        EnvelopeDetector::detection(d2, d3, m2, s2, Some(second)),
    ensures
        first.spec_begin().spec_sample_number() < first.spec_highest().spec_sample_number(),
        first.spec_highest().spec_sample_number() < first.spec_end().spec_sample_number(),
        first.spec_end().spec_sample_number() < second.spec_begin().spec_sample_number(),
{
}

/// A detector settled in a window is ready for the window after the next update.
pub proof fn lemma_settled_then_ready(d: EnvelopeDetector, m: HistoryModel, added: nat)
    requires
        m.wf(),
        d.settled_in(m),
    ensures
        d.ready_for(m.updated(added)),
{
    if let Some(i) = d.previous_end() {
        crate::audio_history::lemma_index_translation(m, added, i as int);
    }
}

/// The first largest of `n` levels is among them and no level is larger.
proof fn lemma_first_max_index(a: Seq<nat>, n: int)
    requires
        1 <= n <= a.len(),
    ensures
        0 <= first_max_index(a, n) < n,
        forall|k: int| 0 <= k < n ==> #[trigger] a[k] <= a[first_max_index(a, n)],
    decreases n,
{
    if n > 1 {
        lemma_first_max_index(a, n - 1);
    }
}

/// A begin found going back from `j` lies at most [`MAX_PEAK_DISTANCE_TO_BEGIN`] levels
/// before the top, at or before `j`, and is significantly smaller than the top.
proof fn lemma_begin_search(a: Seq<nat>, top: int, j: int)
    requires
        0 <= top < a.len(),
        j < top,
    ensures
        begin_search(a, top, j) matches Some(b) ==> 0 <= b <= j && top - MAX_PEAK_DISTANCE_TO_BEGIN
            <= b && significantly_smaller(a[b], a[top]),
    decreases j + 1,
{
    if j >= 0 && j >= top - MAX_PEAK_DISTANCE_TO_BEGIN && !significantly_smaller(a[j], a[top]) {
        lemma_begin_search(a, top, j - 1);
    }
}

/// An end found going forward from `j` lies at or after `j`, has a successor, and is
/// significantly smaller than the top.
proof fn lemma_end_search(a: Seq<nat>, top: int, j: int)
    requires
        0 <= top < a.len(),
    ensures
        end_search(a, top, j) matches Some(e) ==> j <= e < a.len() - 1 && 0 <= e
            && significantly_smaller(a[e], a[top]),
    decreases a.len() - j,
{
    if j >= 0 && j + 1 < a.len() && !significantly_smaller(a[j], a[top]) {
        lemma_end_search(a, top, j + 1);
    }
}

/// A sample at the noise floor or above rounds to a level of at least 50 thousandths.
proof fn lemma_noise_floor_level(x: int)
    requires
        abs(x) >= MINIMUM_PEAK,
    ensures
        div_round(abs(x), 1000) >= 50,
        abs(signed_div_round(x, 1000)) == div_round(abs(x), 1000),
{
    let a = abs(x);
    assert((2 * a + 1000) / 2000 >= 50) by (nonlinear_arith)
        requires
            a >= 50_000,
    ;
}

} // verus!
