//! The local extrema of a sampled function between consecutive zeros.
use crate::peak::zero_of_function_iterator::{
    crosses_zero, lemma_next_zero_bounds, next_zero, ZeroOfFunctionIterator,
};
use crate::sample::{abs, sample_abs, Sample};
use vstd::prelude::*;

verus! {

/// The index in `lo..hi` of the sample of largest absolute value, the later one among equals:
/// the samples are folded from the left, and the kept index is replaced unless its value is
/// strictly larger.
pub open spec fn extremum_index(s: Seq<Sample>, lo: int, hi: int) -> int
    decreases hi - lo,
{
    if hi <= lo + 1 {
        lo
    } else {
        let m = extremum_index(s, lo, hi - 1);
        if abs(s[m] as int) > abs(s[hi - 1] as int) {
            m
        } else {
            hi - 1
        }
    }
}

/// Where the first segment starts when the search starts at `start`: `start` itself when the
/// signal is zero there, else the first zero after it. Starting anywhere else could cut a
/// rising or falling edge in two.
pub open spec fn first_boundary(s: Seq<Sample>, start: int) -> int {
    if 0 <= start < s.len() && s[start] == 0 {
        start
    } else {
        next_zero(s, start)
    }
}

#[via_fn]
proof fn extrema_from_decreases(s: Seq<Sample>, b: int) {
    if 0 <= b {
        lemma_next_zero_bounds(s, b);
    }
}

/// The extremum of each segment between two consecutive zeros, from the boundary `b` on. A
/// segment that the end of the signal cuts off yields nothing: its extremum may be still to
/// come.
pub open spec fn extrema_from(s: Seq<Sample>, b: int) -> Seq<LocalMinMax>
    decreases s.len() - b,
    via extrema_from_decreases
{
    if b < 0 || b >= s.len() {
        Seq::empty()
    } else {
        let z = next_zero(s, b);
        if z >= s.len() {
            Seq::empty()
        } else {
            let e = extremum_index(s, b, z);
            seq![LocalMinMax { index: e as usize, value: s[e] }] + extrema_from(s, z)
        }
    }
}

/// All local extrema that a search from `preferred_start_index` (or 0) finds.
pub open spec fn local_extrema(s: Seq<Sample>, preferred_start_index: Option<usize>) -> Seq<
    LocalMinMax,
> {
    let start = match preferred_start_index {
        Some(i) => i as int,
        None => 0,
    };
    extrema_from(s, first_boundary(s, start))
}

/// The extremum of a segment lies in it, and no sample of the segment is larger in absolute
/// value.
pub proof fn lemma_extremum_index(s: Seq<Sample>, lo: int, hi: int)
    requires
        0 <= lo < hi <= s.len(),
    ensures
        lo <= extremum_index(s, lo, hi) < hi,
        forall|j: int|
            lo <= j < hi ==> abs(#[trigger] s[j] as int) <= abs(
                s[extremum_index(s, lo, hi)] as int,
            ),
    decreases hi - lo,
{
    if hi > lo + 1 {
        lemma_extremum_index(s, lo, hi - 1);
    }
}

/// The extrema found from a boundary `b` are samples of the signal at or after `b`, in
/// strictly increasing order of index.
pub proof fn lemma_extrema_from(s: Seq<Sample>, b: int)
    requires
        0 <= b,
        s.len() <= usize::MAX,
    ensures
        forall|k: int|
            0 <= k < extrema_from(s, b).len() ==> b <= extrema_from(s, b)[k].index < s.len()
                && extrema_from(s, b)[k].value == s[extrema_from(s, b)[k].index as int],
        forall|k: int, l: int|
            0 <= k < l < extrema_from(s, b).len() ==> extrema_from(s, b)[k].index < extrema_from(
                s,
                b,
            )[l].index,
    decreases s.len() - b,
{
    if b < s.len() {
        let z = next_zero(s, b);
        lemma_next_zero_bounds(s, b);
        if z < s.len() {
            lemma_extremum_index(s, b, z);
            lemma_extrema_from(s, z);
            let rest = extrema_from(s, z);
            let e = extremum_index(s, b, z);
            assert(extrema_from(s, b) == seq![LocalMinMax { index: e as usize, value: s[e] }]
                + rest);
        }
    }
}

/// A search that starts at `start` only finds extrema strictly after `start`: where the
/// signal is zero at `start`, the first segment's extremum is not zero, and otherwise the
/// search begins at the next zero.
pub proof fn lemma_local_extrema_after_start(s: Seq<Sample>, start: usize)
    requires
        start < s.len() <= usize::MAX,
    ensures
        forall|k: int|
            0 <= k < local_extrema(s, Some(start)).len() ==> start
                < #[trigger] local_extrema(s, Some(start))[k].index < s.len()
                && local_extrema(s, Some(start))[k].value == s[local_extrema(
                s,
                Some(start),
            )[k].index as int],
{
    let st = start as int;
    let b = first_boundary(s, st);
    lemma_next_zero_bounds(s, st);
    lemma_extrema_from(s, b);
    if s[st] == 0 {
        let z = next_zero(s, st);
        if z < s.len() {
            lemma_extremum_index(s, st, z);
            lemma_next_zero_crosses(s, st);
            lemma_extrema_from(s, z);
            let e = extremum_index(s, st, z);
            assert(abs(s[z - 1] as int) <= abs(s[e] as int));
            assert(extrema_from(s, st) == seq![LocalMinMax { index: e as usize, value: s[e] }]
                + extrema_from(s, z));
        }
    }
}

/// At a zero found after `from`, the sample just before it is not zero.
proof fn lemma_next_zero_crosses(s: Seq<Sample>, from: int)
    requires
        0 <= from,
        next_zero(s, from) < s.len(),
    ensures
        s[next_zero(s, from) - 1] != 0,
    decreases s.len() - from,
{
    if from + 1 < s.len() && !crosses_zero(s, from) {
        lemma_next_zero_crosses(s, from + 1);
    }
}

/// A local minimum or maximum: the sample of largest absolute value between two zeros.
#[derive(Debug, Clone, Copy, PartialEq, Eq, Structural)]
pub struct LocalMinMax {
    /// Index of the sample.
    pub index: usize,
    /// The sample's value.
    pub value: Sample,
}

impl LocalMinMax {
    /// Constructor.
    pub fn new(index: usize, value: Sample) -> (r: Self)
        ensures
            r.index == index,
            r.value == value,
    {
        Self { index, value }
    }
}

/// Iterates over the local minima and maxima of a sampled function, one for each stretch
/// between two consecutive zeros. Values before the first zero and after the last one are not
/// looked at, so an extremum is only reported once it is enclosed by zeros on both sides.
pub struct LocalMinMaxIterator<'a> {
    /// The samples to search.
    samples: &'a [Sample],
    /// Start of the next segment: a zero, or `samples.len()` when there is none.
    next_start_index: usize,
    zero_of_function_iterator: ZeroOfFunctionIterator<'a>,
}

impl<'a> LocalMinMaxIterator<'a> {
    /// The internal invariant of the iterator.
    pub closed spec fn wf(&self) -> bool {
        let s = self.samples@;
        &&& self.zero_of_function_iterator.samples() == s
        &&& self.next_start_index <= s.len()
        &&& 0 <= self.zero_of_function_iterator.index()
        &&& (self.next_start_index == self.zero_of_function_iterator.index() || (
        self.next_start_index == s.len() && next_zero(s, self.zero_of_function_iterator.index())
            == s.len()))
    }

    /// The extrema still to come, in order.
    pub closed spec fn remaining(&self) -> Seq<LocalMinMax> {
        extrema_from(self.samples@, self.next_start_index as int)
    }

    /// An iterator over the local extrema of `samples`, starting at `preferred_start_index`
    /// or else at 0.
    pub fn new(samples: &'a [Sample], preferred_start_index: Option<usize>) -> (r: Self)
        requires
            preferred_start_index matches Some(i) ==> i < samples@.len(),
        ensures
            r.wf(),
            r.remaining() == local_extrema(samples@, preferred_start_index),
    {
        let mut zero_of_function_iterator = ZeroOfFunctionIterator::new(
            samples,
            preferred_start_index,
        );
        let start_index = match preferred_start_index {
            Some(i) => i,
            None => 0,
        };
        let start_index = if start_index < samples.len() && samples[start_index] == 0 {
            start_index
        } else {
            match zero_of_function_iterator.next() {
                Some(z) => z,
                None => samples.len(),
            }
        };
        Self { samples, next_start_index: start_index, zero_of_function_iterator }
    }

    /// The next local extremum, if any.
    pub fn next(&mut self) -> (r: Option<LocalMinMax>)
        requires
            old(self).wf(),
        ensures
            final(self).wf(),
            r matches Some(m) ==> old(self).remaining() == seq![m] + final(self).remaining(),
            r is None ==> old(self).remaining() == Seq::<LocalMinMax>::empty(),
            r is None ==> final(self).remaining() == Seq::<LocalMinMax>::empty(),
    {
        let ghost s = self.samples@;
        // left bound of the segment: a zero
        let start_index = self.next_start_index;
        proof {
            lemma_next_zero_bounds(s, self.zero_of_function_iterator.index());
        }
        // right bound of the segment: the next zero, where the next segment starts
        let next_zero_index = match self.zero_of_function_iterator.next() {
            Some(z) => z,
            None => {
                return None;
            },
        };
        self.next_start_index = next_zero_index;
        let mut best = start_index;
        let mut i = start_index + 1;
        while i < next_zero_index
            invariant
                self.samples@ == s,
                start_index < i <= next_zero_index <= s.len(),
                best == extremum_index(s, start_index as int, i as int),
                start_index <= best < i,
            decreases next_zero_index - i,
        {
            if sample_abs(self.samples[best]) > sample_abs(self.samples[i]) {
            } else {
                best = i;
            }
            i = i + 1;
        }
        Some(LocalMinMax::new(best, self.samples[best]))
    }
}

} // verus!
