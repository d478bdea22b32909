use vstd::prelude::*;

verus! {

use crate::ring::RingBuffer;
use crate::sample::Sample;

broadcast use crate::ring::lemma_len_within_capacity;

/// How many samples of a chunk of `chunk_len` a buffer with `free` open
/// slots accepts: the whole chunk when it fits, else exactly the first
/// `free` samples — drops take the newest samples, never queued ones.
pub open spec fn accepted_count(chunk_len: int, free: int) -> int {
    if chunk_len <= free {
        chunk_len
    } else {
        free
    }
}

/// One step of an event counter, stuck at the top rather than wrapping.
pub open spec fn spec_bump(c: u64) -> u64 {
    if c == u64::MAX {
        c
    } else {
        (c + 1) as u64
    }
}

/// The capture-side adapter.  It runs inside the input hardware's
/// real-time callback, so it never blocks, never allocates, and never
/// raises a fatal error: a chunk that does not fit is partially dropped
/// and the loss is reported as a single aggregated overflow event.
pub struct CaptureSource {
    overflow_events: u64,
}

impl CaptureSource {
    /// Overflow events so far: invocations that had to drop samples, each
    /// counted once however many samples it dropped.
    pub closed spec fn spec_overflow_events(&self) -> u64 {
        self.overflow_events
    }

    pub fn new() -> (s: CaptureSource)
        ensures
            s.spec_overflow_events() == 0,
    {
        CaptureSource { overflow_events: 0 }
    }

    pub fn overflow_events(&self) -> (n: u64)
        ensures
            n == self.spec_overflow_events(),
    {
        self.overflow_events
    }

    /// One capture invocation: push the newly captured chunk into the
    /// buffer in order.  Samples arriving at a full buffer are dropped —
    /// never retried, which would stall the real-time thread — and queued
    /// samples are never displaced.  All drops of one invocation aggregate
    /// into one overflow event, so the reporting path is never flooded.
    pub fn process_chunk(&mut self, ring: &mut RingBuffer, chunk: &Vec<Sample>) -> (overflowed:
        bool)
        requires
            old(ring).wf(),
        ensures
            final(ring).wf(),
            final(ring).spec_capacity() == old(ring).spec_capacity(),
            final(ring)@ == old(ring)@ + chunk@.take(
                accepted_count(
                    chunk@.len() as int,
                    old(ring).spec_capacity() - old(ring)@.len(),
                ),
            ),
            overflowed <==> chunk@.len() > old(ring).spec_capacity() - old(ring)@.len(),
            final(self).spec_overflow_events() == if overflowed {
                spec_bump(old(self).spec_overflow_events())
            } else {
                old(self).spec_overflow_events()
            },
    {
        let ghost free = old(ring).spec_capacity() - old(ring)@.len();
        let mut overflowed = false;
        let mut i: usize = 0;
        proof {
            assert(old(ring)@ + chunk@.take(0) =~= old(ring)@);
        }
        while i < chunk.len()
            invariant
                i <= chunk@.len(),
                ring.wf(),
                ring.spec_capacity() == old(ring).spec_capacity(),
                free == old(ring).spec_capacity() - old(ring)@.len(),
                !overflowed ==> i <= free && ring@ == old(ring)@ + chunk@.take(i as int),
                overflowed ==> i > free && ring@ == old(ring)@ + chunk@.take(free)
                    && ring@.len() == ring.spec_capacity(),
            decreases chunk@.len() - i,
        {
            let r = ring.push(chunk[i]);
            proof {
                if r is Ok {
                    assert(ring@ =~= old(ring)@ + chunk@.take(i + 1));
                }
            }
            if r.is_err() {
                overflowed = true;
            }
            i = i + 1;
        }
        if overflowed {
            self.overflow_events = if self.overflow_events == u64::MAX {
                u64::MAX
            } else {
                self.overflow_events + 1
            };
        }
        proof {
            if !overflowed {
                assert(chunk@.take(i as int) =~= chunk@.take(
                    accepted_count(chunk@.len() as int, free),
                ));
            }
        }
        overflowed
    }
}

} // verus!
