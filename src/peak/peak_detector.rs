//! Extraction of the peaks of a signal.
use crate::audio_history::AudioHistoryMeta;
use crate::peak::local_min_max_iterator::{
    lemma_extrema_from, lemma_local_extrema_after_start, local_extrema, first_boundary,
    LocalMinMax, LocalMinMaxIterator,
};
use crate::peak::zero_of_function_iterator::lemma_next_zero_bounds;
use crate::peak::{describes, InternalPeak};
use crate::sample::{abs, sample_abs, Sample};
use vstd::prelude::*;

verus! {

/// The smallest absolute sample value of a peak, 0.05 of full scale: smaller extrema are
/// noise.
pub const MINIMUM_PEAK: u32 = 50_000;

/// The most peaks one extraction returns.
pub const PEAK_CAPACITY: usize = 512;

#[verifier::external_type_specification]
#[verifier::external_body]
#[verifier::reject_recursive_types(T)]
pub struct ExHeaplessVec<T, const N: usize>(heapless::Vec<T, N>);

/// A list of at most [`PEAK_CAPACITY`] peaks, stored inline.
pub type PeakVec = heapless::Vec<InternalPeak, 512>;

/// The items of a fixed-capacity list of peaks, in order.
pub uninterp spec fn peak_list(v: heapless::Vec<InternalPeak, 512>) -> Seq<InternalPeak>;

/// Relies on `heapless::Vec::new`: the vector starts out empty.
#[verifier::external_body]
fn new_peak_list() -> (r: heapless::Vec<InternalPeak, 512>)
    ensures
        peak_list(r) == Seq::<InternalPeak>::empty(),
{
    heapless::Vec::new()
}

/// Relies on `heapless::Vec::push`: below the capacity it appends the item and returns `Ok`;
/// at the capacity it returns the item in `Err` and leaves the vector as it is.
#[verifier::external_body]
fn push_peak(v: &mut PeakVec, item: InternalPeak) -> (r: Result<(), InternalPeak>)
    ensures
        peak_list(*old(v)).len() < 512 ==> r is Ok,
        peak_list(*old(v)).len() < 512 ==> peak_list(*final(v)) == peak_list(*old(v)).push(item),
        peak_list(*old(v)).len() >= 512 ==> r is Err,
        peak_list(*old(v)).len() >= 512 ==> peak_list(*final(v)) == peak_list(*old(v)),
{
    v.push(item)
}

/// Relies on `heapless::Vec::as_slice`: the slice holds the items in order.
#[verifier::external_body]
pub(crate) fn peak_slice(v: &heapless::Vec<InternalPeak, 512>) -> (r: &[InternalPeak])
    ensures
        r@ == peak_list(*v),
{
    v.as_slice()
}

/// The extrema that stand out of the noise, in order.
pub open spec fn above_noise_floor(s: Seq<LocalMinMax>) -> Seq<LocalMinMax>
    decreases s.len(),
{
    if s.len() == 0 {
        Seq::empty()
    } else if abs(s[0].value as int) >= MINIMUM_PEAK {
        seq![s[0]] + above_noise_floor(s.drop_first())
    } else {
        above_noise_floor(s.drop_first())
    }
}

/// The extrema that an extraction turns into peaks: those of the search from
/// `preferred_start_index` that stand out of the noise, at most [`PEAK_CAPACITY`] of them.
pub open spec fn peak_candidates(s: Seq<Sample>, preferred_start_index: Option<usize>) -> Seq<
    LocalMinMax,
> {
    let a = above_noise_floor(local_extrema(s, preferred_start_index));
    if a.len() <= PEAK_CAPACITY {
        a
    } else {
        a.take(PEAK_CAPACITY as int)
    }
}

/// Extrema of `s` in strictly increasing order of index, each above `lower`.
pub open spec fn ordered_extrema_of(x: Seq<LocalMinMax>, s: Seq<Sample>, lower: int) -> bool {
    &&& forall|k: int|
        0 <= k < x.len() ==> lower < #[trigger] x[k].index < s.len() && x[k].value
            == s[x[k].index as int]
    &&& forall|k: int, l: int| 0 <= k < l < x.len() ==> x[k].index < x[l].index
}

/// Leaving out the noise keeps extrema of the signal in their order, and leaves none below
/// the noise floor.
pub proof fn lemma_above_noise_floor(x: Seq<LocalMinMax>, s: Seq<Sample>, lower: int)
    requires
        ordered_extrema_of(x, s, lower),
    ensures
        ordered_extrema_of(above_noise_floor(x), s, lower),
        forall|k: int|
            0 <= k < above_noise_floor(x).len() ==> abs(#[trigger] above_noise_floor(x)[k].value as int)
                >= MINIMUM_PEAK,
        x.len() > 0 && above_noise_floor(x).len() > 0 ==> x[0].index <= above_noise_floor(x)[0].index,
    decreases x.len(),
{
    if x.len() > 0 {
        let rest = x.drop_first();
        assert(ordered_extrema_of(rest, s, x[0].index as int));
        lemma_above_noise_floor(rest, s, x[0].index as int);
        if abs(x[0].value as int) >= MINIMUM_PEAK {
            let r = above_noise_floor(x);
            assert(r == seq![x[0]] + above_noise_floor(rest));
        }
    }
}

/// Extracts peaks from signals.
pub struct PeakDetector;

impl PeakDetector {
    /// The peaks of `samples`, searched from `preferred_start_index` (or the start): the local
    /// extremum between each two consecutive zeros whose absolute value is at least
    /// [`MINIMUM_PEAK`], at most [`PEAK_CAPACITY`] of them, numbered in order and stamped with
    /// the time that `meta` gives their sample. `samples` is the window that `meta`
    /// describes, so the indices and numbers hold for this window only.
    pub fn detect_peaks(
        samples: &[Sample],
        meta: &AudioHistoryMeta,
        preferred_start_index: Option<usize>,
    ) -> (r: heapless::Vec<InternalPeak, 512>)
        requires
            meta.wf(),
            samples@.len() == meta@.len(),
            preferred_start_index matches Some(i) ==> i < samples@.len(),
        ensures
            peak_list(r).len() == peak_candidates(samples@, preferred_start_index).len(),
            forall|k: int|
                0 <= k < peak_list(r).len() ==> describes(
                    #[trigger] peak_list(r)[k],
                    peak_candidates(samples@, preferred_start_index)[k],
                    k,
                    meta@,
                ),
            ordered_extrema_of(
                peak_candidates(samples@, preferred_start_index),
                samples@,
                match preferred_start_index {
                    Some(i) => i as int,
                    None => -1,
                },
            ),
            forall|k: int|
                0 <= k < peak_list(r).len() ==> abs(
                    samples@[#[trigger] peak_list(r)[k].sample_index as int] as int,
                ) >= MINIMUM_PEAK,
    {
        let ghost s = samples@;
        let n = samples.len();
        let ghost lower: int = match preferred_start_index {
            Some(i) => i as int,
            None => -1,
        };
        let ghost all = local_extrema(s, preferred_start_index);
        proof {
            match preferred_start_index {
                Some(i) => {
                    lemma_local_extrema_after_start(s, i);
                    lemma_next_zero_bounds(s, i as int);
                    lemma_extrema_from(s, first_boundary(s, i as int));
                },
                None => {
                    lemma_next_zero_bounds(s, 0);
                    lemma_extrema_from(s, first_boundary(s, 0));
                },
            }
            assert(ordered_extrema_of(all, s, lower));
            lemma_above_noise_floor(all, s, lower);
        }
        let mut peaks = new_peak_list();
        let mut iter = LocalMinMaxIterator::new(samples, preferred_start_index);
        let ghost mut consumed: Seq<LocalMinMax> = Seq::empty();
        let ghost mut kept: Seq<LocalMinMax> = Seq::empty();
        let mut count: usize = 0;
        assert(all == consumed + iter.remaining());
        while count < PEAK_CAPACITY
            invariant
                iter.wf(),
                meta.wf(),
                s == samples@,
                s.len() == meta@.len(),
                all == local_extrema(s, preferred_start_index),
                ordered_extrema_of(all, s, lower),
                all == consumed + iter.remaining(),
                above_noise_floor(all) == kept + above_noise_floor(iter.remaining()),
                count <= PEAK_CAPACITY,
                count == kept.len(),
                peak_list(peaks).len() == count,
                forall|k: int|
                    0 <= k < count ==> describes(#[trigger] peak_list(peaks)[k], kept[k], k, meta@),
            ensures
                peak_list(peaks).len() == count,
                count == kept.len(),
                forall|k: int|
                    0 <= k < count ==> describes(#[trigger] peak_list(peaks)[k], kept[k], k, meta@),
                kept == peak_candidates(s, preferred_start_index),
            decreases iter.remaining().len(),
        {
            let ghost rem = iter.remaining();
            match iter.next() {
                None => {
                    assert(kept + Seq::<LocalMinMax>::empty() =~= kept);
                    break;
                },
                Some(m) => {
                    proof {
                        assert(rem.drop_first() =~= iter.remaining());
                        assert(consumed.push(m) + iter.remaining() =~= all);
                        assert(all[consumed.len() as int] == m);
                    }
                    if sample_abs(m.value) >= MINIMUM_PEAK {
                        let p = InternalPeak::new(m.index, m.value, count, meta);
                        let _ = push_peak(&mut peaks, p);
                        proof {
                            assert(kept.push(m) + above_noise_floor(iter.remaining()) =~= kept + (
                            seq![m] + above_noise_floor(iter.remaining())));
                            kept = kept.push(m);
                        }
                        count = count + 1;
                    }
                    proof {
                        consumed = consumed.push(m);
                    }
                },
            }
            if count == PEAK_CAPACITY {
                proof {
                    let a = above_noise_floor(all);
                    assert(a.take(PEAK_CAPACITY as int) =~= kept);
                }
            }
        }
        peaks
    }
}

} // verus!
