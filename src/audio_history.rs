//! The time-aware history of an audio stream.
use crate::sample::{div_round, Sample};
use crate::util::audio_ring_buffer::{keep_newest, RingBufferWithSerialSliceAccess};
use vstd::prelude::*;

verus! {

/// Default size of the history: half a second at 44.1 kHz. Envelopes (beats) last up to about
/// 400 ms, so a shorter window would not hold them.
pub const AUDIO_HISTORY_DEFAULT_BUFFER_SIZE: usize = 22500;

/// The largest number of samples a stream may have in total: times in microseconds of up to
/// this many samples are computed without overflow (over seven years of audio at 44.1 kHz).
pub const MAX_STREAM_SAMPLES: u64 = 1_000_000_000_000;

/// The duration of `n` samples at `sampling_rate` Hz, in microseconds, rounded to nearest.
pub open spec fn micros_of(n: nat, sampling_rate: nat) -> nat {
    div_round(n * 1_000_000, sampling_rate)
}

/// How many of the `old_len` held elements leave a window of `capacity` elements when `added`
/// new ones arrive.
pub open spec fn evicted_by(old_len: nat, added: nat, capacity: nat) -> nat {
    if old_len + added <= capacity {
        // not full after this update
        0
    } else if old_len < capacity {
        // becomes full within this update
        (old_len + added - capacity) as nat
    } else {
        // was full already
        added
    }
}

/// The bookkeeping of a history as plain numbers.
pub struct HistoryModel {
    /// Capacity of the window.
    pub capacity: nat,
    /// Sampling rate in Hz.
    pub sampling_rate: nat,
    /// Samples consumed in total.
    pub total: nat,
    /// Samples added by the latest update.
    pub latest: nat,
    /// Elements that left the window in the latest update.
    pub evicted: nat,
}

impl HistoryModel {
    /// The history of a fresh stream.
    pub open spec fn initial(capacity: nat, sampling_rate: nat) -> HistoryModel {
        HistoryModel { capacity, sampling_rate, total: 0, latest: 0, evicted: 0 }
    }

    /// Number of samples in the window: `min(total, capacity)`.
    pub open spec fn len(self) -> nat {
        if self.total < self.capacity {
            self.total
        } else {
            self.capacity
        }
    }

    /// Samples consumed in total before the latest update.
    pub open spec fn total_before_latest_update(self) -> nat {
        (self.total - self.latest) as nat
    }

    /// Number of samples in the window before the latest update.
    pub open spec fn len_before_latest_update(self) -> nat {
        if self.total_before_latest_update() < self.capacity {
            self.total_before_latest_update()
        } else {
            self.capacity
        }
    }

    /// The number in the stream (counted from 1) of the sample at `index` of the window.
    pub open spec fn position(self, index: int) -> int {
        self.total - self.len() + index + 1
    }

    /// The number in the stream of the sample that stood at `index` of the window before the
    /// latest update.
    pub open spec fn position_before_latest_update(self, index: int) -> int {
        self.total_before_latest_update() - self.len_before_latest_update() + index + 1
    }

    /// The time in microseconds at the end of the sample numbered `position` in the stream.
    pub open spec fn time_of_position(self, position: nat) -> nat {
        micros_of(position, self.sampling_rate)
    }

    /// The history after `added` more samples arrived.
    pub open spec fn updated(self, added: nat) -> HistoryModel {
        HistoryModel {
            capacity: self.capacity,
            sampling_rate: self.sampling_rate,
            total: self.total + added,
            latest: added,
            evicted: evicted_by(self.len(), added, self.capacity),
        }
    }

    /// The history after chunks of the given lengths arrived, in order.
    pub open spec fn updated_by_chunks(self, chunks: Seq<nat>) -> HistoryModel
        decreases chunks.len(),
    {
        if chunks.len() == 0 {
            self
        } else {
            self.updated_by_chunks(chunks.drop_last()).updated(chunks.last())
        }
    }

    /// The consistency of the numbers.
    pub open spec fn wf(self) -> bool {
        &&& self.capacity > 0
        &&& self.sampling_rate > 0
        &&& self.latest <= self.total
        &&& self.evicted == evicted_by(
            self.len_before_latest_update(),
            self.latest,
            self.capacity,
        )
    }
}

/// The sum of a sequence of chunk lengths.
pub open spec fn sum_of(chunks: Seq<nat>) -> nat
    decreases chunks.len(),
{
    if chunks.len() == 0 {
        0
    } else {
        sum_of(chunks.drop_last()) + chunks.last()
    }
}

/// The bookkeeping of an [`AudioHistory`]: capacity, sampling rate and sample counts, from
/// which times and the eviction of old samples follow. It is `Copy`, so that code holding the
/// audio buffer mutably can still read it.
#[derive(Debug, Clone, Copy)]
pub struct AudioHistoryMeta {
    /// Capacity of the audio buffer.
    buffer_capacity: usize,
    /// Sampling rate in Hz.
    sampling_rate: u32,
    /// Samples added by the latest update.
    amount_new_samples_on_latest_update: usize,
    /// Samples consumed in total.
    amount_total_consumed_samples: u64,
    /// Elements that left the audio buffer in the latest update.
    amount_outfaded_elements: usize,
}

impl View for AudioHistoryMeta {
    type V = HistoryModel;

    closed spec fn view(&self) -> HistoryModel {
        HistoryModel {
            capacity: self.buffer_capacity as nat,
            sampling_rate: self.sampling_rate as nat,
            total: self.amount_total_consumed_samples as nat,
            latest: self.amount_new_samples_on_latest_update as nat,
            evicted: self.amount_outfaded_elements as nat,
        }
    }
}

impl AudioHistoryMeta {
    /// The bookkeeping is consistent and within the stream's limit.
    pub open spec fn wf(&self) -> bool {
        &&& self@.wf()
        &&& self@.total <= MAX_STREAM_SAMPLES
    }

    /// Bookkeeping of a fresh stream.
    fn new(buffer_capacity: usize, sampling_rate: u32) -> (r: Self)
        requires
            buffer_capacity > 0,
            sampling_rate > 0,
        ensures
            r.wf(),
            r@ == HistoryModel::initial(buffer_capacity as nat, sampling_rate as nat),
    {
        Self {
            buffer_capacity,
            sampling_rate,
            amount_new_samples_on_latest_update: 0,
            amount_total_consumed_samples: 0,
            amount_outfaded_elements: 0,
        }
    }

    /// The duration of one sample in microseconds, rounded to nearest.
    pub fn time_per_sample(&self) -> (r: u64)
        requires
            self.wf(),
        ensures
            r == micros_of(1, self@.sampling_rate),
    {
        let rate = self.sampling_rate as u64;
        (2_000_000 + rate) / (2 * rate)
    }

    /// The time passed since the start of the stream in microseconds, rounded to nearest.
    /// Computed afresh from the number of samples consumed, so no error accumulates.
    pub fn total_relative_time(&self) -> (r: u64)
        requires
            self.wf(),
        ensures
            r == micros_of(self@.total, self@.sampling_rate),
    {
        micros(self.amount_total_consumed_samples, self.sampling_rate)
    }

    /// Number of samples added by the latest update.
    pub fn amount_new_samples_on_latest_update(&self) -> (r: usize)
        ensures
            r == self@.latest,
    {
        self.amount_new_samples_on_latest_update
    }

    /// Number of samples consumed in total.
    pub fn amount_total_samples(&self) -> (r: u64)
        ensures
            r == self@.total,
    {
        self.amount_total_consumed_samples
    }

    /// Number of elements that left the audio buffer in the latest update.
    pub fn amount_outfaded_elements(&self) -> (r: usize)
        ensures
            r == self@.evicted,
    {
        self.amount_outfaded_elements
    }

    /// Capacity of the audio buffer.
    pub fn capacity(&self) -> (r: usize)
        ensures
            r == self@.capacity,
    {
        self.buffer_capacity
    }

    /// The sampling rate in Hz.
    pub fn sampling_rate(&self) -> (r: u32)
        ensures
            r == self@.sampling_rate,
    {
        self.sampling_rate
    }

    /// The time in microseconds of the sample at `index` of the current window (index 0 is
    /// the oldest sample held, `len() - 1` the newest), counted from the start of the stream.
    pub fn time_of_sample(&self, index: usize) -> (r: u64)
        requires
            self.wf(),
            index < self@.len(),
        ensures
            self@.position(index as int) >= 1,
            r == self@.time_of_position(self@.position(index as int) as nat),
    {
        let position = self.position(index);
        micros(position, self.sampling_rate)
    }

    /// The number in the stream (counted from 1) of the sample at `index` of the window.
    pub fn position(&self, index: usize) -> (r: u64)
        requires
            self.wf(),
            index < self@.len(),
        ensures
            r == self@.position(index as int),
            1 <= r <= self@.total,
    {
        let len = self.len();
        self.amount_total_consumed_samples - len as u64 + index as u64 + 1
    }

    /// How much audio the window holds, in microseconds.
    pub fn audio_time_in_buffer(&self) -> (r: u64)
        requires
            self.wf(),
        ensures
            r == micros_of(self@.len(), self@.sampling_rate),
    {
        micros(self.len() as u64, self.sampling_rate)
    }

    /// Number of samples in the window: below the capacity at the start of the stream, and
    /// the capacity from the moment the buffer is full.
    pub fn len(&self) -> (r: usize)
        ensures
            r == self@.len(),
    {
        if self.amount_total_consumed_samples < self.buffer_capacity as u64 {
            self.amount_total_consumed_samples as usize
        } else {
            self.buffer_capacity
        }
    }

    /// Translates `index`, which pointed into the window before the latest update, into the
    /// window after it: `None` when the sample has left the window, else its new index.
    pub fn calc_index_after_update(&self, index: usize) -> (r: Option<usize>)
        requires
            self.wf(),
            index < self@.len_before_latest_update(),
        ensures
            r is None <==> index < self@.evicted,
            r matches Some(i) ==> i == index - self@.evicted && i < self@.len(),
            r matches Some(i) ==> self@.position(i as int) == self@.position_before_latest_update(
                index as int,
            ),
            r is None ==> self@.position_before_latest_update(index as int) < self@.position(0),
    {
        if index < self.amount_outfaded_elements {
            None
        } else {
            Some(index - self.amount_outfaded_elements)
        }
    }

    /// Takes the next `added` samples of the stream into account.
    fn update(&mut self, added: usize)
        requires
            old(self).wf(),
            old(self)@.total + added <= MAX_STREAM_SAMPLES,
        ensures
            final(self).wf(),
            final(self)@ == old(self)@.updated(added as nat),
    {
        let old_len = self.len();
        self.amount_new_samples_on_latest_update = added;
        self.amount_total_consumed_samples = self.amount_total_consumed_samples + added as u64;
        let capacity = self.buffer_capacity;
        // the three cases that calc_index_after_update relies on
        if added <= capacity - old_len {
            // no elements removed so far
            self.amount_outfaded_elements = 0;
        } else if old_len < capacity {
            // just began to remove elements
            self.amount_outfaded_elements = added - (capacity - old_len);
        } else {
            self.amount_outfaded_elements = added;
        }
    }
}

/// Keeps the latest samples of a stream, at most `N`, together with the stream's time
/// bookkeeping. Times follow from the number of samples consumed and the sampling rate, which
/// stays the same for the whole stream.
pub struct AudioHistory<const N: usize> {
    /// The latest samples, oldest first.
    ring_buffer: RingBufferWithSerialSliceAccess<Sample, N>,
    meta: AudioHistoryMeta,
    /// Every sample consumed so far.
    stream: Ghost<Seq<Sample>>,
}

impl<const N: usize> AudioHistory<N> {
    /// The internal invariant of the history.
    pub closed spec fn wf(&self) -> bool {
        &&& self.ring_buffer.wf()
        &&& self.meta.wf()
        &&& self.meta@.capacity == N
        &&& self.stream@.len() == self.meta@.total
        &&& self.ring_buffer@ == keep_newest(self.stream@, N as nat)
    }

    /// The bookkeeping.
    pub closed spec fn spec_meta(&self) -> HistoryModel {
        self.meta@
    }

    /// Every sample consumed so far.
    pub closed spec fn stream(&self) -> Seq<Sample> {
        self.stream@
    }

    /// The samples in the window, oldest first.
    pub closed spec fn window(&self) -> Seq<Sample> {
        self.ring_buffer@
    }

    /// A well-formed history has consistent bookkeeping.
    pub proof fn lemma_meta_wf(&self)
        requires
            self.wf(),
        ensures
            self.spec_meta().wf(),
            self.spec_meta().total <= MAX_STREAM_SAMPLES,
            self.spec_meta().capacity == N,
            self.window().len() == self.spec_meta().len(),
            self.window() == keep_newest(self.stream(), N as nat),
    {
    }

    /// An empty history for a stream sampled at `sampling_rate` Hz.
    pub fn new(sampling_rate: u32) -> (r: Self)
        requires
            N > 0,
            sampling_rate > 0,
        ensures
            r.wf(),
            r.spec_meta() == HistoryModel::initial(N as nat, sampling_rate as nat),
            r.stream() == Seq::<Sample>::empty(),
    {
        let r = Self {
            ring_buffer: RingBufferWithSerialSliceAccess::new(),
            meta: AudioHistoryMeta::new(N, sampling_rate),
            stream: Ghost(Seq::empty()),
        };
        r
    }

    /// Takes in the next chunk of the stream.
    pub fn update(&mut self, samples: &[Sample])
        requires
            old(self).wf(),
            old(self).spec_meta().total + samples@.len() <= MAX_STREAM_SAMPLES,
        ensures
            final(self).wf(),
            final(self).spec_meta() == old(self).spec_meta().updated(samples@.len()),
            final(self).stream() == old(self).stream() + samples@,
    {
        self.ring_buffer.extend_from_slice(samples);
        self.meta.update(samples.len());
        self.stream = Ghost(self.stream@ + samples@);
        proof {
            lemma_keep_newest_append(self.stream@.subrange(0, self.stream@.len() - samples@.len()),
                samples@, N as nat);
            assert(self.stream@.subrange(0, self.stream@.len() - samples@.len()) =~= old(
                self,
            ).stream@);
        }
    }

    /// The samples in the window, the oldest at index 0 and the newest at the highest index.
    /// Needs `&mut self` because the buffer may have to be straightened out first.
    pub fn latest_audio(&mut self) -> (r: &[Sample])
        requires
            old(self).wf(),
        ensures
            final(self).wf(),
            final(self).spec_meta() == old(self).spec_meta(),
            final(self).stream() == old(self).stream(),
            r@ == old(self).window(),
    {
        self.ring_buffer.continuous_slice()
    }

    /// See [`AudioHistoryMeta::time_per_sample`].
    pub fn time_per_sample(&self) -> (r: u64)
        requires
            self.wf(),
        ensures
            r == micros_of(1, self.spec_meta().sampling_rate),
    {
        self.meta.time_per_sample()
    }

    /// See [`AudioHistoryMeta::total_relative_time`].
    pub fn total_relative_time(&self) -> (r: u64)
        requires
            self.wf(),
        ensures
            r == micros_of(self.spec_meta().total, self.spec_meta().sampling_rate),
    {
        self.meta.total_relative_time()
    }

    /// See [`AudioHistoryMeta::amount_new_samples_on_latest_update`].
    pub fn amount_new_samples_on_latest_update(&self) -> (r: usize)
        ensures
            r == self.spec_meta().latest,
    {
        self.meta.amount_new_samples_on_latest_update()
    }

    /// See [`AudioHistoryMeta::amount_total_samples`].
    pub fn amount_total_samples(&self) -> (r: u64)
        ensures
            r == self.spec_meta().total,
    {
        self.meta.amount_total_samples()
    }

    /// The capacity of the window.
    pub fn capacity(&self) -> (r: usize)
        ensures
            r == N,
    {
        N
    }

    /// See [`AudioHistoryMeta::time_of_sample`].
    pub fn time_of_sample(&self, index: usize) -> (r: u64)
        requires
            self.wf(),
            index < self.spec_meta().len(),
        ensures
            r == self.spec_meta().time_of_position(
                self.spec_meta().position(index as int) as nat,
            ),
    {
        self.meta.time_of_sample(index)
    }

    /// See [`AudioHistoryMeta::audio_time_in_buffer`].
    pub fn audio_time_in_buffer(&self) -> (r: u64)
        requires
            self.wf(),
        ensures
            r == micros_of(self.spec_meta().len(), self.spec_meta().sampling_rate),
    {
        self.meta.audio_time_in_buffer()
    }

    /// See [`AudioHistoryMeta::len`].
    pub fn len(&self) -> (r: usize)
        requires
            self.wf(),
        ensures
            r == self.spec_meta().len(),
            r == self.window().len(),
    {
        self.meta.len()
    }

    /// See [`AudioHistoryMeta::calc_index_after_update`].
    pub fn calc_index_after_update(&self, index: usize) -> (r: Option<usize>)
        requires
            self.wf(),
            index < self.spec_meta().len_before_latest_update(),
        ensures
            r is None <==> index < self.spec_meta().evicted,
            r matches Some(i) ==> i == index - self.spec_meta().evicted && i
                < self.spec_meta().len(),
    {
        self.meta.calc_index_after_update(index)
    }

    /// A copy of the bookkeeping as it stands.
    pub fn meta(&self) -> (r: AudioHistoryMeta)
        requires
            self.wf(),
        ensures
            r.wf(),
            r@ == self.spec_meta(),
    {
        self.meta
    }
}

/// After any update the window holds at most `capacity` samples, no fewer than before, and
/// exactly `capacity` once it was full.
pub proof fn lemma_len_after_update(m: HistoryModel, added: nat)
    requires
        m.wf(),
    ensures
        m.updated(added).wf(),
        m.updated(added).len() <= m.capacity,
        m.len() <= m.updated(added).len(),
        m.len() == m.capacity ==> m.updated(added).len() == m.capacity,
{
}

/// For any sequence of updates, the length of the window stays within the capacity, never
/// decreases, and once it reached the capacity it stays there: for the states after the first
/// `i` and the first `j` chunks, `i <= j`, the lengths are ordered and bounded.
pub proof fn lemma_len_over_updates(m: HistoryModel, chunks: Seq<nat>, i: int, j: int)
    requires
        m.wf(),
        0 <= i <= j <= chunks.len(),
    ensures
        m.updated_by_chunks(chunks.take(j)).wf(),
        m.updated_by_chunks(chunks.take(j)).len() <= m.capacity,
        m.len() <= m.updated_by_chunks(chunks.take(i)).len(),
        m.updated_by_chunks(chunks.take(i)).len() <= m.updated_by_chunks(chunks.take(j)).len(),
        m.updated_by_chunks(chunks.take(i)).len() == m.capacity ==> m.updated_by_chunks(
            chunks.take(j),
        ).len() == m.capacity,
    decreases j,
{
    if j == 0 {
        assert(chunks.take(0) =~= Seq::<nat>::empty());
    } else {
        let prev = chunks.take(j - 1);
        assert(chunks.take(j).drop_last() =~= prev);
        if i == j {
            lemma_len_over_updates(m, chunks, j - 1, j - 1);
        } else {
            lemma_len_over_updates(m, chunks, i, j - 1);
        }
        lemma_len_over_updates(m, chunks, j - 1, j - 1);
        lemma_len_after_update(m.updated_by_chunks(prev), chunks[j - 1]);
        lemma_total_after_chunks(m, prev);
        assert(chunks.take(j).last() == chunks[j - 1]);
        assert(m.updated_by_chunks(chunks.take(j)) == m.updated_by_chunks(prev).updated(
            chunks[j - 1],
        ));
    }
}

/// Updating by chunks adds their total length to the samples consumed and keeps the rate.
pub proof fn lemma_total_after_chunks(m: HistoryModel, chunks: Seq<nat>)
    ensures
        m.updated_by_chunks(chunks).total == m.total + sum_of(chunks),
        m.updated_by_chunks(chunks).sampling_rate == m.sampling_rate,
        m.updated_by_chunks(chunks).capacity == m.capacity,
    decreases chunks.len(),
{
    if chunks.len() > 0 {
        lemma_total_after_chunks(m, chunks.drop_last());
    }
}

/// However a sequence of samples is cut into chunks, the time passed after consuming all of
/// them is the same: two partitions of equal total length give equal sample counts and hence
/// equal total relative times.
pub proof fn lemma_total_time_independent_of_chunking(
    m: HistoryModel,
    a: Seq<nat>,
    b: Seq<nat>,
)
    requires
        sum_of(a) == sum_of(b),
    ensures
        m.updated_by_chunks(a).total == m.updated_by_chunks(b).total,
        micros_of(m.updated_by_chunks(a).total, m.updated_by_chunks(a).sampling_rate) == micros_of(
            m.updated_by_chunks(b).total,
            m.updated_by_chunks(b).sampling_rate,
        ),
{
    lemma_total_after_chunks(m, a);
    lemma_total_after_chunks(m, b);
}

/// Index translation across one update: the indices that `calc_index_after_update` reports
/// as gone (those below `evicted`) are exactly those whose sample is no longer in the window;
/// every other index moves down by `evicted`, stays below the new length and still denotes
/// the same sample of the stream.
pub proof fn lemma_index_translation(m: HistoryModel, added: nat, index: int)
    requires
        m.wf(),
        0 <= index < m.len(),
    ensures
        m.updated(added).len_before_latest_update() == m.len(),
        m.updated(added).position_before_latest_update(index) == m.position(index),
        index < m.updated(added).evicted <==> m.position(index) < m.updated(added).position(0),
        index >= m.updated(added).evicted ==> index - m.updated(added).evicted < m.updated(
            added,
        ).len(),
        index >= m.updated(added).evicted ==> m.updated(added).position(
            index - m.updated(added).evicted,
        ) == m.position(index),
{
}

/// Keeping the newest `n` of a sequence extended by `t` only depends on the newest `n` of the
/// sequence.
proof fn lemma_keep_newest_append(s: Seq<Sample>, t: Seq<Sample>, n: nat)
    requires
        n > 0,
    ensures
        keep_newest(keep_newest(s, n) + t, n) == keep_newest(s + t, n),
{
    let k = keep_newest(s, n);
    if s.len() > n {
        assert(keep_newest(k + t, n) =~= keep_newest(s + t, n));
    }
}

/// The duration of `n` samples at `sampling_rate` Hz in microseconds, rounded to nearest.
fn micros(n: u64, sampling_rate: u32) -> (r: u64)
    requires
        n <= MAX_STREAM_SAMPLES,
        sampling_rate > 0,
    ensures
        r == micros_of(n as nat, sampling_rate as nat),
{
    let rate = sampling_rate as u64;
    (2 * n * 1_000_000 + rate) / (2 * rate)
}

} // verus!
