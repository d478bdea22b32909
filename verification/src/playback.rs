use vstd::prelude::*;

verus! {

use crate::capture::spec_bump;
use crate::ring::RingBuffer;
use crate::sample::{silence_seq, Sample};

broadcast use crate::ring::lemma_len_within_capacity;

/// What one playback invocation emits for contents `v`: each of the
/// `slots` output slots receives the next queued sample, and exactly the
/// silent sample (amplitude 0.0) once the queue is exhausted.
pub open spec fn frame_spec(v: Seq<Sample>, slots: int) -> Seq<Sample> {
    Seq::new(
        slots as nat,
        |i: int|
            if i < v.len() {
                v[i]
            } else {
                Sample::spec_silence()
            },
    )
}

/// How many of `slots` requested slots contents of length `v_len` can
/// serve from the queue.
pub open spec fn served_count(v_len: int, slots: int) -> int {
    if slots <= v_len {
        slots
    } else {
        v_len
    }
}

/// The playback-side adapter.  It runs inside the output hardware's
/// real-time callback, so it never blocks, never allocates on the
/// streaming path, and never raises a fatal error: a slot the buffer
/// cannot serve is filled with silence and the shortfall is reported as a
/// single aggregated underflow event.
pub struct PlaybackSink {
    underflow_events: u64,
}

impl PlaybackSink {
    /// Underflow events so far: invocations that ran out of queued
    /// samples, each counted once however many slots went silent.
    pub closed spec fn spec_underflow_events(&self) -> u64 {
        self.underflow_events
    }

    pub fn new() -> (s: PlaybackSink)
        ensures
            s.spec_underflow_events() == 0,
    {
        PlaybackSink { underflow_events: 0 }
    }

    pub fn underflow_events(&self) -> (n: u64)
        ensures
            n == self.spec_underflow_events(),
    {
        self.underflow_events
    }

    /// One playback invocation: pop one sample per requested slot, oldest
    /// first, substituting silence for every slot an empty buffer could
    /// not serve.  The emitted frame is returned together with the
    /// invocation's underflow flag; the caller may forward the emitted
    /// samples to the telemetry tap at its own risk of contention.
    pub fn process_frame(&mut self, ring: &mut RingBuffer, slots: usize) -> (r: (Vec<Sample>, bool))
        requires
            old(ring).wf(),
        ensures
            final(ring).wf(),
            final(ring).spec_capacity() == old(ring).spec_capacity(),
            r.0@ == frame_spec(old(ring)@, slots as int),
            final(ring)@ == old(ring)@.skip(served_count(old(ring)@.len() as int, slots as int)),
            r.1 <==> slots > old(ring)@.len(),
            final(self).spec_underflow_events() == if r.1 {
                spec_bump(old(self).spec_underflow_events())
            } else {
                old(self).spec_underflow_events()
            },
    {
        let mut out: Vec<Sample> = Vec::new();
        let mut underflowed = false;
        let mut k: usize = 0;
        proof {
            assert(out@ =~= frame_spec(old(ring)@, 0));
            assert(ring@ =~= old(ring)@.skip(served_count(old(ring)@.len() as int, 0)));
        }
        while k < slots
            invariant
                k <= slots,
                ring.wf(),
                ring.spec_capacity() == old(ring).spec_capacity(),
                out@ == frame_spec(old(ring)@, k as int),
                ring@ == old(ring)@.skip(served_count(old(ring)@.len() as int, k as int)),
                underflowed <==> k > old(ring)@.len(),
            decreases slots - k,
        {
            match ring.pop() {
                Some(s) => {
                    out.push(s);
                },
                None => {
                    underflowed = true;
                    out.push(Sample::silence());
                },
            }
            proof {
                assert(out@ =~= frame_spec(old(ring)@, k + 1));
                assert(ring@ =~= old(ring)@.skip(
                    served_count(old(ring)@.len() as int, k + 1),
                ));
            }
            k = k + 1;
        }
        if underflowed {
            self.underflow_events = if self.underflow_events == u64::MAX {
                u64::MAX
            } else {
                self.underflow_events + 1
            };
        }
        (out, underflowed)
    }

    /// One grouped frame: when the hardware groups `channel_count`
    /// interleaved channel slots into a frame served by a single discrete
    /// sample, that sample's value is replicated across every slot of the
    /// frame.  With nothing queued the whole frame is silence and one
    /// underflow event is flagged; a frame of zero slots asks nothing of
    /// the buffer.
    pub fn process_grouped_frame(&mut self, ring: &mut RingBuffer, channel_count: u16) -> (r: (
        Vec<Sample>,
        bool,
    ))
        requires
            old(ring).wf(),
        ensures
            final(ring).wf(),
            final(ring).spec_capacity() == old(ring).spec_capacity(),
            r.0@.len() == channel_count as int,
            channel_count > 0 && old(ring)@.len() > 0 ==> final(ring)@ == old(ring)@.drop_first()
                && r.0@ == Seq::new(channel_count as nat, |i: int| old(ring)@.first()),
            channel_count > 0 && old(ring)@.len() == 0 ==> final(ring)@ == old(ring)@ && r.0@
                == silence_seq(channel_count as int),
            channel_count == 0 ==> final(ring)@ == old(ring)@,
            r.1 <==> channel_count > 0 && old(ring)@.len() == 0,
            final(self).spec_underflow_events() == if r.1 {
                spec_bump(old(self).spec_underflow_events())
            } else {
                old(self).spec_underflow_events()
            },
    {
        if channel_count == 0 {
            return (Vec::new(), false);
        }
        let (value, underflowed) = match ring.pop() {
            Some(s) => (s, false),
            None => (Sample::silence(), true),
        };
        let mut out: Vec<Sample> = Vec::new();
        let mut k: u16 = 0;
        proof {
            assert(out@ =~= Seq::new(0nat, |i: int| value));
        }
        while k < channel_count
            invariant
                k <= channel_count,
                out@ == Seq::new(k as nat, |i: int| value),
            decreases channel_count - k,
        {
            out.push(value);
            proof {
                assert(out@ =~= Seq::new((k + 1) as nat, |i: int| value));
            }
            k = k + 1;
        }
        if underflowed {
            self.underflow_events = if self.underflow_events == u64::MAX {
                u64::MAX
            } else {
                self.underflow_events + 1
            };
        }
        proof {
            if old(ring)@.len() == 0 {
                assert(out@ =~= silence_seq(channel_count as int));
            } else {
                assert(out@ =~= Seq::new(channel_count as nat, |i: int| old(ring)@.first()));
            }
        }
        (out, underflowed)
    }
}

} // verus!
