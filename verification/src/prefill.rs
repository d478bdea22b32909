use vstd::prelude::*;

verus! {

use crate::ring::RingBuffer;
use crate::sample::silence_seq;

/// The stream format negotiated once per session with the host audio
/// subsystem, assumed identical for the capture and the playback device.
#[derive(Clone, Copy, PartialEq, Eq, Structural, Debug)]
pub struct AudioStreamConfig {
    /// Samples per second and channel, in Hz.
    pub sample_rate: u32,
    /// Interleaved channels per frame.
    pub channel_count: u16,
}

/// Fatal at construction; the caller aborts startup rather than retry.
#[derive(Clone, Copy, PartialEq, Eq, Structural, Debug)]
pub enum ConfigError {
    /// The latency budget rounds to zero samples: too small for the
    /// configured sample rate, so no startup offset could be established.
    DegenerateLatency,
}

/// The latency budget in samples:
/// `floor(latency_ms / 1000 * sample_rate) * channel_count`.
pub open spec fn spec_latency_samples(sample_rate: int, channel_count: int, latency_ms: int) -> int {
    (latency_ms * sample_rate / 1000) * channel_count
}

/// Convert the configured latency budget from milliseconds to a whole
/// number of interleaved samples.
pub fn latency_samples(config: &AudioStreamConfig, latency_ms: u32) -> (n: u64)
    requires
        spec_latency_samples(
            config.sample_rate as int,
            config.channel_count as int,
            latency_ms as int,
        ) <= u64::MAX,
    ensures
        n == spec_latency_samples(
            config.sample_rate as int,
            config.channel_count as int,
            latency_ms as int,
        ),
{
    proof {
        assert((latency_ms as int) * (config.sample_rate as int) <= 0xFFFF_FFFE_0000_0001)
            by (nonlinear_arith)
            requires
                latency_ms as int <= 0xFFFF_FFFF,
                config.sample_rate as int <= 0xFFFF_FFFF,
                0 <= latency_ms as int,
                0 <= config.sample_rate as int,
        ;
    }
    let frames: u64 = (latency_ms as u64) * (config.sample_rate as u64) / 1000;
    frames * (config.channel_count as u64)
}

/// Build the stream's buffer and establish the startup offset: a buffer of
/// twice the latency budget, pre-filled with exactly the budget in silent
/// samples.  The playback side can then consume a full budget before
/// risking underflow, and the capture side can produce a full budget
/// before risking overflow.  A budget of zero samples is refused: such a
/// configuration could not keep the two clocks apart.
pub fn primed_ring_buffer(config: &AudioStreamConfig, latency_ms: u32) -> (r: Result<
    RingBuffer,
    ConfigError,
>)
    requires
        2 * spec_latency_samples(
            config.sample_rate as int,
            config.channel_count as int,
            latency_ms as int,
        ) <= usize::MAX,
    ensures
        ({
            let lat = spec_latency_samples(
                config.sample_rate as int,
                config.channel_count as int,
                latency_ms as int,
            );
            match r {
                Ok(ring) => {
                    &&& lat > 0
                    &&& ring.wf()
                    &&& ring.spec_capacity() == 2 * lat
                    &&& ring@ == silence_seq(lat)
                },
                Err(e) => lat == 0 && e == ConfigError::DegenerateLatency,
            }
        }),
{
    let lat = latency_samples(config, latency_ms);
    if lat == 0 {
        return Err(ConfigError::DegenerateLatency);
    }
    let lat_count = lat as usize;
    let mut ring = RingBuffer::new(2 * lat_count);
    let mut i: usize = 0;
    while i < lat_count
        invariant
            i <= lat_count,
            lat_count >= 1,
            ring.wf(),
            ring.spec_capacity() == 2 * lat_count,
            ring@ == silence_seq(i as int),
        decreases lat_count - i,
    {
        let pushed = ring.push(crate::sample::Sample::silence());
        proof {
            assert(pushed is Ok);
            assert(ring@ =~= silence_seq(i + 1));
        }
        i = i + 1;
    }
    Ok(ring)
}

} // verus!
