//! A fixed-capacity ring buffer that hands out its contents as one ordered slice.
use vstd::prelude::*;

verus! {

/// The last `n` elements of `s` (all of `s` when it is not longer than `n`).
pub open spec fn keep_newest<T>(s: Seq<T>, n: nat) -> Seq<T> {
    if s.len() <= n {
        s
    } else {
        s.subrange(s.len() - n, s.len() as int)
    }
}

/// Keeping the newest `n` elements and then appending one keeps the newest `n` of the whole.
proof fn lemma_keep_newest_push<T>(s: Seq<T>, x: T, n: nat)
    requires
        n > 0,
    ensures
        keep_newest(keep_newest(s, n).push(x), n) == keep_newest(s.push(x), n),
{
    let k = keep_newest(s, n);
    if s.len() <= n {
    } else {
        assert(keep_newest(k.push(x), n) =~= keep_newest(s.push(x), n));
    }
}

/// Whatever was pushed, in whatever pattern, the contents read oldest first: they are the
/// newest `n` items in the order they were pushed, and the item pushed last stands at the
/// highest index.
pub proof fn lemma_newest_at_highest_index<T>(pushed: Seq<T>, n: nat)
    requires
        n > 0,
        pushed.len() > 0,
    ensures
        keep_newest(pushed, n).len() == if pushed.len() < n {
            pushed.len()
        } else {
            n
        },
        forall|i: int|
            0 <= i < keep_newest(pushed, n).len() ==> #[trigger] keep_newest(pushed, n)[i]
                == pushed[pushed.len() - keep_newest(pushed, n).len() + i],
        keep_newest(pushed, n).last() == pushed.last(),
{
}

/// A ring buffer of fixed capacity `BUF_LEN` that overwrites its oldest element once it is
/// full. Its contents can be read as one slice, oldest element first and newest last.
///
/// Storage is reserved once, at construction; no operation allocates afterwards.
pub struct RingBufferWithSerialSliceAccess<T, const BUF_LEN: usize> {
    /// The stored elements. Grows until it holds `BUF_LEN` elements; from then on the element
    /// at `write_index` is the oldest one and the next to be overwritten.
    buffer: Vec<T>,
    /// The contents straightened out, oldest first, when `continuous_slice_buffer_valid`.
    continuous_slice_buffer: Vec<T>,
    /// Whether `continuous_slice_buffer` holds the current contents.
    continuous_slice_buffer_valid: bool,
    /// Position in `buffer` that the next push writes to.
    write_index: usize,
    /// Number of elements held: initially 0, eventually `BUF_LEN`.
    len: usize,
}

impl<T: Copy, const BUF_LEN: usize> View for RingBufferWithSerialSliceAccess<T, BUF_LEN> {
    type V = Seq<T>;

    /// The held elements, oldest first.
    closed spec fn view(&self) -> Seq<T> {
        self.buffer@.subrange(self.write_index as int, self.len as int) + self.buffer@.subrange(
            0,
            self.write_index as int,
        )
    }
}

impl<T: Copy, const BUF_LEN: usize> RingBufferWithSerialSliceAccess<T, BUF_LEN> {
    /// The internal invariant of the buffer.
    pub closed spec fn wf(&self) -> bool {
        &&& 0 < BUF_LEN
        &&& self.len <= BUF_LEN
        &&& self.buffer@.len() == self.len
        &&& self.len < BUF_LEN ==> self.write_index == self.len
        &&& self.len == BUF_LEN ==> self.write_index < BUF_LEN
        &&& self.continuous_slice_buffer_valid ==> self.continuous_slice_buffer@ == self@
    }

    /// Whether the storage already holds the contents in order: the write position stands at
    /// the start of the storage.
    pub closed spec fn spec_in_order(&self) -> bool {
        self.write_index == 0
    }

    /// Whether the straightened copy of the contents is up to date.
    pub closed spec fn spec_cache_valid(&self) -> bool {
        self.continuous_slice_buffer_valid
    }

    /// Creates an empty ring buffer and reserves its storage.
    pub fn new() -> (r: Self)
        requires
            0 < BUF_LEN,
        ensures
            r.wf(),
            r@ == Seq::<T>::empty(),
            r.spec_cache_valid(),
    {
        let r = Self {
            buffer: Vec::with_capacity(BUF_LEN),
            continuous_slice_buffer: Vec::with_capacity(BUF_LEN),
            continuous_slice_buffer_valid: true,
            write_index: 0,
            len: 0,
        };
        assert(r@ =~= Seq::<T>::empty());
        r
    }

    /// Appends `item`; once the buffer is full, the oldest element is dropped.
    pub fn push(&mut self, item: T)
        requires
            old(self).wf(),
        ensures
            final(self).wf(),
            final(self)@ == keep_newest(old(self)@.push(item), BUF_LEN as nat),
            !final(self).spec_cache_valid(),
    {
        let ghost old_view = self@;
        if self.len < BUF_LEN {
            self.buffer.push(item);
            self.len = self.len + 1;
            self.write_index = if self.len == BUF_LEN {
                0
            } else {
                self.len
            };
            assert(self@ =~= old_view.push(item));
        } else {
            let w = self.write_index;
            self.buffer.set(w, item);
            self.write_index = if w + 1 == BUF_LEN {
                0
            } else {
                w + 1
            };
            assert(self@ =~= keep_newest(old_view.push(item), BUF_LEN as nat));
        }
        self.continuous_slice_buffer_valid = false;
    }

    /// Appends each element of `new_data` in order.
    pub fn extend_from_slice(&mut self, new_data: &[T])
        requires
            old(self).wf(),
        ensures
            final(self).wf(),
            final(self)@ == keep_newest(old(self)@ + new_data@, BUF_LEN as nat),
            new_data@.len() > 0 ==> !final(self).spec_cache_valid(),
    {
        let ghost start = self@;
        let mut i: usize = 0;
        assert(start + new_data@.subrange(0, 0) =~= start);
        while i < new_data.len()
            invariant
                self.wf(),
                i <= new_data@.len(),
                start.len() <= BUF_LEN,
                self@ == keep_newest(start + new_data@.subrange(0, i as int), BUF_LEN as nat),
                i > 0 ==> !self.spec_cache_valid(),
            decreases new_data@.len() - i,
        {
            let ghost before = self@;
            self.push(new_data[i]);
            proof {
                let pre = start + new_data@.subrange(0, i as int);
                lemma_keep_newest_push(pre, new_data@[i as int], BUF_LEN as nat);
                assert(pre.push(new_data@[i as int]) =~= start + new_data@.subrange(0, i + 1));
            }
            i = i + 1;
        }
        assert(new_data@.subrange(0, new_data@.len() as int) =~= new_data@);
    }

    /// Empties the buffer; its storage is kept.
    pub fn clear(&mut self)
        requires
            old(self).wf(),
        ensures
            final(self).wf(),
            final(self)@ == Seq::<T>::empty(),
    {
        self.buffer.clear();
        self.write_index = 0;
        self.len = 0;
        self.continuous_slice_buffer_valid = false;
        assert(self@ =~= Seq::<T>::empty());
    }

    /// The contents as one slice, the oldest element at index 0 and the newest at the highest
    /// index. Needs `&mut self` because the straightened copy may have to be rebuilt; when the
    /// write position stands at the start of the storage, the storage itself is handed out.
    pub fn continuous_slice(&mut self) -> (r: &[T])
        requires
            old(self).wf(),
        ensures
            final(self).wf(),
            final(self)@ == old(self)@,
            r@ == old(self)@,
            old(self).spec_in_order() ==> final(self).spec_cache_valid()
                == old(self).spec_cache_valid(),
            !old(self).spec_in_order() ==> final(self).spec_cache_valid(),
    {
        if self.write_index == 0 {
            assert(self.buffer@.subrange(0, self.len as int) =~= self.buffer@);
            assert(self@ =~= self.buffer@);
            self.buffer.as_slice()
        } else {
            self.prepare_continuous_slice();
            self.continuous_slice_buffer.as_slice()
        }
    }

    /// Returns the capacity.
    pub fn capacity(&self) -> (r: usize)
        ensures
            r == BUF_LEN,
    {
        BUF_LEN
    }

    /// Returns the number of elements held.
    pub fn len(&self) -> (r: usize)
        requires
            self.wf(),
        ensures
            r == self@.len(),
    {
        self.len
    }

    /// Whether the straightened copy of the contents is up to date.
    pub fn continuous_slice_buffer_valid(&self) -> (r: bool)
        ensures
            r == self.spec_cache_valid(),
    {
        self.continuous_slice_buffer_valid
    }

    /// Rebuilds the straightened copy of the contents, unless it is up to date.
    fn prepare_continuous_slice(&mut self)
        requires
            old(self).wf(),
        ensures
            final(self).wf(),
            final(self)@ == old(self)@,
            final(self).spec_cache_valid(),
            final(self).write_index == old(self).write_index,
    {
        if self.continuous_slice_buffer_valid {
            return;
        }
        self.continuous_slice_buffer.clear();
        let w = self.write_index;
        let n = self.len;
        // oldest part first: from the write position to the end of the storage
        let mut i: usize = w;
        while i < n
            invariant
                w <= i <= n,
                n == self.len,
                w == self.write_index,
                self.buffer@ == old(self).buffer@,
                self.len == old(self).len,
                self.write_index == old(self).write_index,
                old(self).wf(),
                self.continuous_slice_buffer@ == self.buffer@.subrange(w as int, i as int),
            decreases n - i,
        {
            let x = self.buffer[i];
            self.continuous_slice_buffer.push(x);
            i = i + 1;
        }
        // then the newest part: from the start of the storage to the write position
        let mut j: usize = 0;
        while j < w
            invariant
                0 <= j <= w,
                w <= n,
                n == self.len,
                w == self.write_index,
                self.buffer@ == old(self).buffer@,
                self.len == old(self).len,
                self.write_index == old(self).write_index,
                old(self).wf(),
                self.continuous_slice_buffer@ == self.buffer@.subrange(w as int, n as int)
                    + self.buffer@.subrange(0, j as int),
            decreases w - j,
        {
            let x = self.buffer[j];
            self.continuous_slice_buffer.push(x);
            j = j + 1;
        }
        self.continuous_slice_buffer_valid = true;
    }
}

} // verus!
