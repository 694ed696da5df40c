//! The zeros of a sampled function: where its graph crosses or touches the zero line.
use crate::sample::Sample;
use vstd::prelude::*;

verus! {

/// The signal crosses (or touches) zero between index `i` and `i + 1`: from a positive value
/// to one that is not positive, or from a negative value to one that is not negative.
pub open spec fn crosses_zero(s: Seq<Sample>, i: int) -> bool {
    (s[i] > 0 && s[i + 1] <= 0) || (s[i] < 0 && s[i + 1] >= 0)
}

/// The first zero at or after `from`: the index `i + 1` of the first crossing between `i` and
/// `i + 1` with `from <= i`; `s.len()` when there is none.
pub open spec fn next_zero(s: Seq<Sample>, from: int) -> int
    decreases s.len() - from,
{
    if from < 0 || from + 1 >= s.len() {
        s.len() as int
    } else if crosses_zero(s, from) {
        from + 1
    } else {
        next_zero(s, from + 1)
    }
}

/// A zero found after `from` lies after it and within the signal.
pub proof fn lemma_next_zero_bounds(s: Seq<Sample>, from: int)
    requires
        0 <= from,
    ensures
        next_zero(s, from) == s.len() || from < next_zero(s, from) < s.len(),
    decreases s.len() - from,
{
    if from + 1 < s.len() && !crosses_zero(s, from) {
        lemma_next_zero_bounds(s, from + 1);
    }
}

/// Iterates over the zeros of a sampled function, from an optional start index. A run of
/// exact zeros at the start is passed over: only a change of sign, or a value that reaches
/// zero, marks a zero.
pub struct ZeroOfFunctionIterator<'a> {
    /// The samples to search.
    samples: &'a [Sample],
    /// Progress: the search goes on from here.
    index: usize,
}

impl<'a> ZeroOfFunctionIterator<'a> {
    /// The samples searched.
    pub closed spec fn samples(&self) -> Seq<Sample> {
        self.samples@
    }

    /// Where the next search starts.
    pub closed spec fn index(&self) -> int {
        self.index as int
    }

    /// An iterator over `samples`, starting at `preferred_start_index` or else at 0.
    pub fn new(samples: &'a [Sample], preferred_start_index: Option<usize>) -> (r: Self)
        requires
            preferred_start_index matches Some(i) ==> i < samples@.len(),
        ensures
            r.samples() == samples@,
            r.index() == match preferred_start_index {
                Some(i) => i as int,
                None => 0,
            },
    {
        let index = match preferred_start_index {
            Some(i) => i,
            None => 0,
        };
        Self { samples, index }
    }

    /// The next zero, if any: the index of the first sample after a crossing.
    pub fn next(&mut self) -> (r: Option<usize>)
        ensures
            final(self).samples() == old(self).samples(),
            r matches Some(z) ==> z == next_zero(old(self).samples(), old(self).index()) && z
                < old(self).samples().len() && final(self).index() == z,
            r is None ==> next_zero(old(self).samples(), old(self).index()) == old(
                self,
            ).samples().len() && final(self).index() == old(self).index(),
    {
        let n = self.samples.len();
        let mut i = self.index;
        // an exact zero crosses nothing, so a leading run of zeros is passed over by this
        // search as well
        while n > 0 && i < n - 1
            invariant
                self.samples@.len() == n,
                old(self).index <= i,
                *self == *old(self),
                next_zero(self.samples@, old(self).index as int) == next_zero(
                    self.samples@,
                    i as int,
                ),
            decreases n - i,
        {
            let current = self.samples[i];
            let next = self.samples[i + 1];
            if (current > 0 && next <= 0) || (current < 0 && next >= 0) {
                self.index = i + 1;
                return Some(i + 1);
            }
            i = i + 1;
        }
        None
    }
}

} // verus!
