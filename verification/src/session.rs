use vstd::prelude::*;

verus! {

use crate::capture::{accepted_count, spec_bump, CaptureSource};
use crate::playback::{frame_spec, served_count, PlaybackSink};
use crate::prefill::{primed_ring_buffer, spec_latency_samples, AudioStreamConfig, ConfigError};
use crate::ring::RingBuffer;
use crate::sample::{silence_seq, Sample};
use vstd::pervasive::unreached;

broadcast use crate::ring::lemma_len_within_capacity;

/// Where a streaming session stands in its life.  The order is fixed:
/// a session is configured once, primed once, runs once, and stops for
/// good — there is no pause, resume or re-priming; streaming again means
/// a new session.
#[derive(Clone, Copy, PartialEq, Eq, Structural, Debug)]
pub enum SessionState {
    Uninitialized,
    Configured,
    Primed,
    Running,
    Stopped,
}

/// One streaming run as a unit: the buffer bridging the two hardware
/// callbacks, the capture and playback adapters with their event
/// counters, and the configuration they were built for.  The embedding
/// program drives the state forward — configure with the format the
/// device layer negotiated, prime, attach the hardware callbacks, start —
/// and routes each hardware invocation to `on_capture` or `on_playback`
/// while the session runs.  Stopping tears the session down as a whole:
/// the buffer is dropped and in-flight samples are discarded, by design.
pub struct StreamSession {
    state: SessionState,
    config: Option<AudioStreamConfig>,
    ring: Option<RingBuffer>,
    capture: CaptureSource,
    playback: PlaybackSink,
}

impl StreamSession {
    pub closed spec fn spec_state(&self) -> SessionState {
        self.state
    }

    pub closed spec fn spec_config(&self) -> Option<AudioStreamConfig> {
        self.config
    }

    /// The samples queued between capture and playback, oldest first.
    /// Meaningful once the session is primed.
    pub closed spec fn buffered(&self) -> Seq<Sample> {
        match self.ring {
            Some(r) => r@,
            None => Seq::empty(),
        }
    }

    /// The fixed capacity of the session's buffer, twice the latency
    /// budget.  Meaningful once the session is primed.
    pub closed spec fn buffer_capacity(&self) -> nat {
        match self.ring {
            Some(r) => r.spec_capacity(),
            None => 0,
        }
    }

    pub closed spec fn spec_overflow_events(&self) -> u64 {
        self.capture.spec_overflow_events()
    }

    pub closed spec fn spec_underflow_events(&self) -> u64 {
        self.playback.spec_underflow_events()
    }

    /// What each state guarantees of the session's parts: the
    /// configuration exists from `Configured` on, the buffer exists and is
    /// well-formed exactly while the session is primed or running, and no
    /// overflow or underflow event predates the start of the run.
    pub closed spec fn wf(&self) -> bool {
        &&& match self.state {
            SessionState::Uninitialized => self.config is None && self.ring is None,
            SessionState::Configured => self.config is Some && self.ring is None,
            SessionState::Primed | SessionState::Running => self.config is Some && (match self
                .ring {
                Some(r) => r.wf(),
                None => false,
            }),
            SessionState::Stopped => self.ring is None,
        }
        &&& !(self.state is Running || self.state is Stopped)
            ==> self.capture.spec_overflow_events() == 0
            && self.playback.spec_underflow_events() == 0
    }

    pub fn state(&self) -> (s: SessionState)
        ensures
            s == self.spec_state(),
    {
        self.state
    }

    pub fn config(&self) -> (c: Option<AudioStreamConfig>)
        ensures
            c == self.spec_config(),
    {
        self.config
    }

    pub fn overflow_events(&self) -> (n: u64)
        ensures
            n == self.spec_overflow_events(),
    {
        self.capture.overflow_events()
    }

    pub fn underflow_events(&self) -> (n: u64)
        ensures
            n == self.spec_underflow_events(),
    {
        self.playback.underflow_events()
    }

    pub fn buffered_len(&self) -> (n: usize)
        requires
            self.wf(),
            self.spec_state() is Primed || self.spec_state() is Running,
        ensures
            n == self.buffered().len(),
    {
        match &self.ring {
            Some(r) => r.len(),
            None => unreached(),
        }
    }

    /// A fresh session that has seen no configuration and no events.
    pub fn new() -> (s: StreamSession)
        ensures
            s.wf(),
            s.spec_state() == SessionState::Uninitialized,
            s.spec_config() is None,
            s.spec_overflow_events() == 0,
            s.spec_underflow_events() == 0,
    {
        StreamSession {
            state: SessionState::Uninitialized,
            config: None,
            ring: None,
            capture: CaptureSource::new(),
            playback: PlaybackSink::new(),
        }
    }

    /// Adopt the stream format that the device layer negotiated and
    /// validated.  Capture and playback are assumed to share it; a
    /// mismatch is for the device layer to reject before this point.
    pub fn configure(&mut self, config: AudioStreamConfig)
        requires
            old(self).wf(),
            old(self).spec_state() == SessionState::Uninitialized,
        ensures
            final(self).wf(),
            final(self).spec_state() == SessionState::Configured,
            final(self).spec_config() == Some(config),
            final(self).spec_overflow_events() == 0,
            final(self).spec_underflow_events() == 0,
    {
        self.config = Some(config);
        self.state = SessionState::Configured;
    }

    /// Establish the startup offset: build the buffer at twice the
    /// latency budget and pre-fill it with the budget in silence.  A
    /// budget that rounds to zero samples is refused and the session
    /// stays configured; the caller aborts startup rather than retry.
    pub fn prime(&mut self, latency_ms: u32) -> (r: Result<(), ConfigError>)
        requires
            old(self).wf(),
            old(self).spec_state() == SessionState::Configured,
            2 * spec_latency_samples(
                old(self).spec_config().unwrap().sample_rate as int,
                old(self).spec_config().unwrap().channel_count as int,
                latency_ms as int,
            ) <= usize::MAX,
        ensures
            final(self).wf(),
            final(self).spec_config() == old(self).spec_config(),
            final(self).spec_overflow_events() == 0,
            final(self).spec_underflow_events() == 0,
            ({
                let lat = spec_latency_samples(
                    old(self).spec_config().unwrap().sample_rate as int,
                    old(self).spec_config().unwrap().channel_count as int,
                    latency_ms as int,
                );
                match r {
                    Ok(()) => {
                        &&& lat > 0
                        &&& final(self).spec_state() == SessionState::Primed
                        &&& final(self).buffer_capacity() == 2 * lat
                        &&& final(self).buffered() == silence_seq(lat)
                    },
                    Err(e) => {
                        &&& lat == 0
                        &&& e == ConfigError::DegenerateLatency
                        &&& final(self).spec_state() == SessionState::Configured
                    },
                }
            }),
    {
        let config = match &self.config {
            Some(c) => *c,
            None => unreached(),
        };
        match primed_ring_buffer(&config, latency_ms) {
            Ok(ring) => {
                self.ring = Some(ring);
                self.state = SessionState::Primed;
                Ok(())
            },
            Err(e) => Err(e),
        }
    }

    /// Enter the running state, once both hardware callbacks are attached
    /// and the hardware is about to begin invoking them.
    pub fn start(&mut self)
        requires
            old(self).wf(),
            old(self).spec_state() == SessionState::Primed,
        ensures
            final(self).wf(),
            final(self).spec_state() == SessionState::Running,
            final(self).spec_config() == old(self).spec_config(),
            final(self).buffered() == old(self).buffered(),
            final(self).buffer_capacity() == old(self).buffer_capacity(),
            final(self).spec_overflow_events() == 0,
            final(self).spec_underflow_events() == 0,
    {
        self.state = SessionState::Running;
    }

    /// One invocation of the capture callback: the newly captured chunk
    /// goes into the buffer, oldest first; what does not fit is dropped
    /// and aggregates into a single overflow event.
    pub fn on_capture(&mut self, chunk: &Vec<Sample>) -> (overflowed: bool)
        requires
            old(self).wf(),
            old(self).spec_state() == SessionState::Running,
        ensures
            final(self).wf(),
            final(self).spec_state() == SessionState::Running,
            final(self).spec_config() == old(self).spec_config(),
            final(self).buffer_capacity() == old(self).buffer_capacity(),
            final(self).buffered() == old(self).buffered() + chunk@.take(
                accepted_count(
                    chunk@.len() as int,
                    old(self).buffer_capacity() - old(self).buffered().len(),
                ),
            ),
            overflowed <==> chunk@.len() > old(self).buffer_capacity() - old(
                self,
            ).buffered().len(),
            final(self).spec_overflow_events() == if overflowed {
                spec_bump(old(self).spec_overflow_events())
            } else {
                old(self).spec_overflow_events()
            },
            final(self).spec_underflow_events() == old(self).spec_underflow_events(),
    {
        match &mut self.ring {
            Some(r) => self.capture.process_chunk(r, chunk),
            None => unreached(),
        }
    }

    /// One invocation of the playback callback: each requested slot gets
    /// the next queued sample, or silence once the buffer runs dry, in
    /// which case a single underflow event is flagged.  The emitted frame
    /// is returned with the invocation's underflow flag.
    pub fn on_playback(&mut self, slots: usize) -> (r: (Vec<Sample>, bool))
        requires
            old(self).wf(),
            old(self).spec_state() == SessionState::Running,
        ensures
            final(self).wf(),
            final(self).spec_state() == SessionState::Running,
            final(self).spec_config() == old(self).spec_config(),
            final(self).buffer_capacity() == old(self).buffer_capacity(),
            r.0@ == frame_spec(old(self).buffered(), slots as int),
            final(self).buffered() == old(self).buffered().skip(
                served_count(old(self).buffered().len() as int, slots as int),
            ),
            r.1 <==> slots > old(self).buffered().len(),
            final(self).spec_underflow_events() == if r.1 {
                spec_bump(old(self).spec_underflow_events())
            } else {
                old(self).spec_underflow_events()
            },
            final(self).spec_overflow_events() == old(self).spec_overflow_events(),
    {
        match &mut self.ring {
            Some(r) => self.playback.process_frame(r, slots),
            None => unreached(),
        }
    }

    /// Tear the session down as a unit: the buffer is dropped and any
    /// in-flight samples are discarded — there is no drain-before-stop.
    /// `Stopped` is terminal; streaming again means a new session.
    pub fn stop(&mut self)
        requires
            old(self).wf(),
            old(self).spec_state() == SessionState::Running,
        ensures
            final(self).wf(),
            final(self).spec_state() == SessionState::Stopped,
            final(self).spec_config() == old(self).spec_config(),
            final(self).spec_overflow_events() == old(self).spec_overflow_events(),
            final(self).spec_underflow_events() == old(self).spec_underflow_events(),
    {
        self.ring = None;
        self.state = SessionState::Stopped;
    }
}

} // verus!
