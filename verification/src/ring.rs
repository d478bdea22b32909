use vstd::prelude::*;

verus! {

use crate::sample::Sample;

/// Returned by `push` on a full buffer: the sample was not enqueued and the
/// contents are unchanged.  The producer drops the sample and flags the
/// event; it must not retry, which would stall the real-time thread.
#[derive(Clone, Copy, PartialEq, Eq, Structural, Debug)]
pub struct Full;

/// The array slot holding the `i`-th oldest queued sample, for a queue
/// whose oldest sample sits at `head` in a backing array of length `cap`.
/// With `0 <= head < cap` and `0 <= i < cap` the sum wraps at most once.
spec fn slot(head: int, cap: int, i: int) -> int {
    if head + i < cap {
        head + i
    } else {
        head + i - cap
    }
}

/// A fixed-capacity FIFO queue of samples: the bounded buffer standing
/// between the capture side and the playback side.  Its two operations are
/// non-blocking and constant-time, and neither allocates: `push` fails on a
/// full buffer and `pop` returns nothing on an empty one, so neither side
/// ever waits.  The view is the queued samples, oldest first.
///
/// Exactly one producer and one consumer are meant to use an instance; the
/// embedding program is responsible for that exclusivity (for instance with
/// a lock around the whole buffer, never held across a wait).
pub struct RingBuffer {
    data: Vec<Sample>,
    head: usize,
    len: usize,
}

impl View for RingBuffer {
    type V = Seq<Sample>;

    closed spec fn view(&self) -> Seq<Sample> {
        Seq::new(
            self.len as nat,
            |i: int| self.data@[slot(self.head as int, self.data@.len() as int, i)],
        )
    }
}

impl RingBuffer {
    /// The cursors stay inside the backing array, whose length never
    /// changes after construction.
    pub closed spec fn wf(&self) -> bool {
        &&& self.len <= self.data@.len()
        &&& if self.data@.len() == 0 {
            self.head == 0
        } else {
            self.head < self.data@.len()
        }
    }

    /// The fixed number of samples the buffer can hold at once.
    pub closed spec fn spec_capacity(&self) -> nat {
        self.data@.len()
    }

    pub fn capacity(&self) -> (c: usize)
        ensures
            c == self.spec_capacity(),
    {
        self.data.len()
    }

    pub fn len(&self) -> (l: usize)
        ensures
            l == self@.len(),
    {
        self.len
    }

    pub fn is_empty(&self) -> (b: bool)
        ensures
            b <==> self@.len() == 0,
    {
        self.len == 0
    }

    pub fn is_full(&self) -> (b: bool)
        ensures
            b <==> self@.len() == self.spec_capacity(),
    {
        self.len == self.data.len()
    }

    /// An empty buffer that can hold `capacity` samples.  All storage is
    /// allocated here, once: the streaming path never allocates.
    pub fn new(capacity: usize) -> (r: RingBuffer)
        ensures
            r.wf(),
            r@ == Seq::<Sample>::empty(),
            r.spec_capacity() == capacity,
    {
        let mut data: Vec<Sample> = Vec::new();
        while data.len() < capacity
            invariant
                data@.len() <= capacity,
            decreases capacity - data@.len(),
        {
            data.push(Sample::silence());
        }
        let r = RingBuffer { data, head: 0, len: 0 };
        proof {
            assert(r@ =~= Seq::<Sample>::empty());
        }
        r
    }

    /// Enqueue `s` behind everything already queued.  On a full buffer the
    /// push fails and the contents — values and order — are unchanged.
    pub fn push(&mut self, s: Sample) -> (r: Result<(), Full>)
        requires
            old(self).wf(),
        ensures
            final(self).wf(),
            final(self).spec_capacity() == old(self).spec_capacity(),
            r is Ok <==> old(self)@.len() < old(self).spec_capacity(),
            r is Ok ==> final(self)@ == old(self)@.push(s),
            r is Err ==> final(self)@ == old(self)@,
    {
        let cap = self.data.len();
        if self.len == cap {
            return Err(Full);
        }
        let w = if self.head < cap - self.len {
            self.head + self.len
        } else {
            self.head - (cap - self.len)
        };
        self.data.set(w, s);
        self.len = self.len + 1;
        proof {
            assert(self@ =~= old(self)@.push(s));
        }
        Ok(())
    }

    /// Dequeue the oldest sample.  On an empty buffer the pop yields
    /// nothing and the buffer is unchanged; the consumer substitutes
    /// silence in that case.
    pub fn pop(&mut self) -> (r: Option<Sample>)
        requires
            old(self).wf(),
        ensures
            final(self).wf(),
            final(self).spec_capacity() == old(self).spec_capacity(),
            r is Some <==> old(self)@.len() > 0,
            old(self)@.len() > 0 ==> r == Some(old(self)@.first()) && final(self)@ == old(
                self,
            )@.drop_first(),
            old(self)@.len() == 0 ==> final(self)@ == old(self)@,
    {
        if self.len == 0 {
            return None;
        }
        let s = self.data[self.head];
        let cap = self.data.len();
        self.head = if self.head + 1 == cap {
            0
        } else {
            self.head + 1
        };
        self.len = self.len - 1;
        proof {
            assert(self@ =~= old(self)@.drop_first());
        }
        Some(s)
    }
}

/// A well-formed buffer never holds more samples than its capacity.
pub broadcast proof fn lemma_len_within_capacity(r: RingBuffer)
    requires
        #[trigger] r.wf(),
    ensures
        r@.len() <= r.spec_capacity(),
{
}

/// FIFO ordering of accepted samples: a push appends at the back, so after
/// contents `v` accept `a` and then `b`, sample `a` stands at position
/// `v.len()` and `b` right behind it.
pub proof fn lemma_fifo_order(v: Seq<Sample>, a: Sample, b: Sample)
    ensures
        v.push(a).push(b)[v.len() as int] == a,
        v.push(a).push(b)[v.len() as int + 1] == b,
{
}

/// Pops serve the queue front to back: after `k` pops from contents `w`
/// — each removing the front, as `pop`'s contract states — the contents are
/// `w.skip(k)`, so the next pop yields `w[k]` and leaves `w.skip(k + 1)`.
/// With `lemma_fifo_order`: of two samples accepted in order, the one
/// accepted earlier is popped earlier.
pub proof fn lemma_pop_progression(w: Seq<Sample>, k: int)
    requires
        0 <= k < w.len(),
    ensures
        w.skip(k).first() == w[k],
        w.skip(k).drop_first() == w.skip(k + 1),
{
    assert(w.skip(k).drop_first() =~= w.skip(k + 1));
}

} // verus!
