use vstd::prelude::*;

verus! {

/// One rectified amplitude reading appended to contents `v` of a buffer
/// with room for `cap` readings: a full buffer evicts its oldest reading
/// first — strict FIFO — and a buffer with no room at all drops the
/// reading.
pub open spec fn telemetry_push_spec(v: Seq<u64>, cap: nat, reading: u64) -> Seq<u64> {
    if cap == 0 {
        v
    } else if v.len() < cap {
        v.push(reading)
    } else {
        v.drop_first().push(reading)
    }
}

/// The readings `rs`, fed one by one into contents `v`.
pub open spec fn telemetry_feed_spec(v: Seq<u64>, cap: nat, rs: Seq<u64>) -> Seq<u64>
    decreases rs.len(),
{
    if rs.len() == 0 {
        v
    } else {
        telemetry_feed_spec(telemetry_push_spec(v, cap, rs.first()), cap, rs.drop_first())
    }
}

/// How far `len` queued-plus-fed readings overshoot a capacity of `cap`:
/// the number of oldest readings that eviction removes.
pub open spec fn overshoot(len: int, cap: int) -> int {
    if len <= cap {
        0
    } else {
        len - cap
    }
}

/// The bounded rolling record of rectified amplitude readings that the
/// playback side writes and an independently clocked observer reads.  The
/// writer must never wait for the reader: the embedding program wraps an
/// instance in a lock that the write side only ever tries — on contention
/// the reading is dropped silently, since telemetry completeness never
/// outranks the timing of the real-time audio path.  A reading is the
/// magnitude of an emitted sample scaled to a display-friendly range.
pub struct TelemetryBuffer {
    readings: Vec<u64>,
    capacity: usize,
}

impl View for TelemetryBuffer {
    type V = Seq<u64>;

    closed spec fn view(&self) -> Seq<u64> {
        self.readings@
    }
}

impl TelemetryBuffer {
    /// The buffer never holds more readings than its configured capacity.
    pub closed spec fn wf(&self) -> bool {
        self.readings@.len() <= self.capacity
    }

    pub closed spec fn spec_capacity(&self) -> nat {
        self.capacity as nat
    }

    pub fn capacity(&self) -> (c: usize)
        ensures
            c == self.spec_capacity(),
    {
        self.capacity
    }

    pub fn len(&self) -> (l: usize)
        ensures
            l == self@.len(),
    {
        self.readings.len()
    }

    /// An empty record with room for `capacity` readings.
    pub fn new(capacity: usize) -> (t: TelemetryBuffer)
        ensures
            t.wf(),
            t@ == Seq::<u64>::empty(),
            t.spec_capacity() == capacity,
    {
        TelemetryBuffer { readings: Vec::new(), capacity }
    }

    /// Append one reading, evicting the oldest first when the buffer is at
    /// capacity, so only the most recent readings remain, in the order
    /// they were written.
    pub fn push(&mut self, reading: u64)
        requires
            old(self).wf(),
        ensures
            final(self).wf(),
            final(self).spec_capacity() == old(self).spec_capacity(),
            final(self)@ == telemetry_push_spec(old(self)@, old(self).spec_capacity(), reading),
    {
        if self.capacity == 0 {
            return;
        }
        if self.readings.len() == self.capacity {
            self.readings.remove(0);
            proof {
                assert(self.readings@ =~= old(self)@.drop_first());
            }
        }
        self.readings.push(reading);
    }

    /// A copy of the current contents, oldest reading first, for the
    /// observer to render at its own cadence.  The observer must tolerate
    /// an empty or partially filled snapshot, especially right after the
    /// session starts.
    pub fn snapshot(&self) -> (r: Vec<u64>)
        ensures
            r@ == self@,
    {
        let mut r: Vec<u64> = Vec::new();
        let mut i: usize = 0;
        while i < self.readings.len()
            invariant
                i <= self.readings@.len(),
                r@ == self.readings@.take(i as int),
            decreases self.readings@.len() - i,
        {
            r.push(self.readings[i]);
            proof {
                assert(r@ =~= self.readings@.take(i + 1));
            }
            i = i + 1;
        }
        proof {
            assert(r@ =~= self.readings@);
        }
        r
    }
}

/// Feeding readings `rs` into a telemetry buffer holding `v` leaves
/// exactly the most recent `cap` of `v + rs`, in their original relative
/// order — and in particular never more than `cap` readings.
pub proof fn lemma_telemetry_feed(v: Seq<u64>, cap: nat, rs: Seq<u64>)
    requires
        v.len() <= cap,
    ensures
        telemetry_feed_spec(v, cap, rs).len() <= cap,
        telemetry_feed_spec(v, cap, rs) == (v + rs).skip(
            overshoot(v.len() + rs.len() as int, cap as int),
        ),
    decreases rs.len(),
{
    if rs.len() == 0 {
        assert((v + rs).skip(0) =~= v);
    } else {
        let r0 = rs.first();
        let rest = rs.drop_first();
        let pushed = telemetry_push_spec(v, cap, r0);
        lemma_telemetry_feed(pushed, cap, rest);
        if cap == 0 {
            assert((pushed + rest).skip(overshoot(pushed.len() + rest.len() as int, cap as int))
                =~= (v + rs).skip(overshoot(v.len() + rs.len() as int, cap as int)));
        } else if v.len() < cap {
            assert(pushed + rest =~= v + rs);
        } else {
            assert(pushed + rest =~= (v + rs).skip(1));
            assert(((v + rs).skip(1)).skip(overshoot(pushed.len() + rest.len() as int, cap as int))
                =~= (v + rs).skip(overshoot(v.len() + rs.len() as int, cap as int)));
        }
    }
}

} // verus!
