use audio_relay::capture::CaptureSource;
use audio_relay::playback::PlaybackSink;
use audio_relay::prefill::{latency_samples, primed_ring_buffer, AudioStreamConfig, ConfigError};
use audio_relay::ring::RingBuffer;
use audio_relay::sample::Sample;

fn sample(x: f32) -> Sample {
    Sample { bits: x.to_bits() }
}

fn amplitude(s: Sample) -> f32 {
    f32::from_bits(s.bits)
}

#[test]
fn latency_budget_scenario_a() {
    // sample_rate 48000, 2 channels, 100 ms: 0.1 * 48000 frames, interleaved.
    let cfg = AudioStreamConfig { sample_rate: 48000, channel_count: 2 };
    assert_eq!(latency_samples(&cfg, 100), 9600);
}

#[test]
fn latency_budget_rounds_down() {
    // 1 ms at 44100 Hz is 44.1 frames; the floor is taken before scaling
    // by the channel count.
    let cfg = AudioStreamConfig { sample_rate: 44100, channel_count: 2 };
    assert_eq!(latency_samples(&cfg, 1), 88);

    let mono = AudioStreamConfig { sample_rate: 44100, channel_count: 1 };
    assert_eq!(latency_samples(&mono, 150), 6615);
}

#[test]
fn latency_budget_degenerate_is_zero() {
    let cfg = AudioStreamConfig { sample_rate: 900, channel_count: 2 };
    // 1 ms at 900 Hz is 0.9 frames: floors to zero samples.
    assert_eq!(latency_samples(&cfg, 1), 0);
    assert_eq!(latency_samples(&cfg, 0), 0);
}

#[test]
fn priming_scenario_a() {
    let cfg = AudioStreamConfig { sample_rate: 48000, channel_count: 2 };
    let ring = primed_ring_buffer(&cfg, 100).unwrap();
    assert_eq!(ring.capacity(), 19200);
    assert_eq!(ring.len(), 9600);
    // Prefill leaves exactly the latency budget in free slots.
    assert_eq!(ring.capacity() - ring.len(), 9600);
}

#[test]
fn priming_fills_with_exact_silence() {
    let cfg = AudioStreamConfig { sample_rate: 8000, channel_count: 1 };
    let mut ring = primed_ring_buffer(&cfg, 10).unwrap();
    assert_eq!(ring.len(), 80);
    while let Some(s) = ring.pop() {
        assert_eq!(amplitude(s), 0.0);
    }
    assert!(ring.is_empty());
}

#[test]
fn priming_rejects_zero_budget() {
    let cfg = AudioStreamConfig { sample_rate: 900, channel_count: 2 };
    assert!(matches!(primed_ring_buffer(&cfg, 1), Err(ConfigError::DegenerateLatency)));
    let silent = AudioStreamConfig { sample_rate: 48000, channel_count: 0 };
    assert!(matches!(primed_ring_buffer(&silent, 100), Err(ConfigError::DegenerateLatency)));
}

#[test]
fn fifo_order_is_kept() {
    let mut ring = RingBuffer::new(4);
    ring.push(sample(0.1)).unwrap();
    ring.push(sample(-0.5)).unwrap();
    ring.push(sample(0.25)).unwrap();
    assert_eq!(ring.pop(), Some(sample(0.1)));
    assert_eq!(ring.pop(), Some(sample(-0.5)));
    assert_eq!(ring.pop(), Some(sample(0.25)));
    assert_eq!(ring.pop(), None);
}

#[test]
fn fifo_order_survives_wraparound() {
    let mut ring = RingBuffer::new(3);
    ring.push(sample(1.0)).unwrap();
    ring.push(sample(2.0)).unwrap();
    assert_eq!(ring.pop(), Some(sample(1.0)));
    ring.push(sample(3.0)).unwrap();
    ring.push(sample(4.0)).unwrap();
    assert!(ring.is_full());
    assert_eq!(ring.pop(), Some(sample(2.0)));
    assert_eq!(ring.pop(), Some(sample(3.0)));
    assert_eq!(ring.pop(), Some(sample(4.0)));
    assert!(ring.is_empty());
}

#[test]
fn overflow_leaves_contents_unchanged() {
    let mut ring = RingBuffer::new(2);
    ring.push(sample(0.5)).unwrap();
    ring.push(sample(-0.5)).unwrap();
    assert!(ring.push(sample(0.75)).is_err());
    assert_eq!(ring.len(), 2);
    assert_eq!(ring.pop(), Some(sample(0.5)));
    assert_eq!(ring.pop(), Some(sample(-0.5)));
}

#[test]
fn capture_overflow_scenario_b() {
    // A capacity-19200 buffer primed with 9600 zeros accepts 9600 more
    // real samples without overflow; the 19201st sample is refused and
    // the first 19200 values are unaffected.
    let cfg = AudioStreamConfig { sample_rate: 48000, channel_count: 2 };
    let mut ring = primed_ring_buffer(&cfg, 100).unwrap();
    let mut source = CaptureSource::new();

    let chunk: Vec<Sample> = (0..9600u32).map(|i| Sample { bits: i + 1 }).collect();
    let overflowed = source.process_chunk(&mut ring, &chunk);
    assert!(!overflowed);
    assert_eq!(source.overflow_events(), 0);
    assert!(ring.is_full());

    let one_more = vec![sample(0.9)];
    let overflowed = source.process_chunk(&mut ring, &one_more);
    assert!(overflowed);
    assert_eq!(source.overflow_events(), 1);
    assert_eq!(ring.len(), 19200);

    for i in 0..19200u32 {
        let expected = if i < 9600 { 0 } else { i - 9600 + 1 };
        assert_eq!(ring.pop(), Some(Sample { bits: expected }));
    }
    assert!(ring.is_empty());
}

#[test]
fn capture_aggregates_drops_into_one_event() {
    let mut ring = RingBuffer::new(2);
    let mut source = CaptureSource::new();
    let chunk = vec![sample(0.1), sample(0.2), sample(0.3), sample(0.4)];
    let overflowed = source.process_chunk(&mut ring, &chunk);
    assert!(overflowed);
    // Four pushes, two drops, one event.
    assert_eq!(source.overflow_events(), 1);
    assert_eq!(ring.pop(), Some(sample(0.1)));
    assert_eq!(ring.pop(), Some(sample(0.2)));
    assert_eq!(ring.pop(), None);
}

#[test]
fn playback_serves_in_order_then_silence() {
    let mut ring = RingBuffer::new(4);
    ring.push(sample(0.5)).unwrap();
    ring.push(sample(-0.25)).unwrap();
    let mut sink = PlaybackSink::new();
    let (frame, underflowed) = sink.process_frame(&mut ring, 4);
    assert!(underflowed);
    assert_eq!(sink.underflow_events(), 1);
    assert_eq!(frame.len(), 4);
    assert_eq!(amplitude(frame[0]), 0.5);
    assert_eq!(amplitude(frame[1]), -0.25);
    // Underflow substitutes exactly 0.0; no error is raised.
    assert_eq!(amplitude(frame[2]), 0.0);
    assert_eq!(amplitude(frame[3]), 0.0);
    assert!(ring.is_empty());
}

#[test]
fn playback_without_underflow_flags_nothing() {
    let mut ring = RingBuffer::new(4);
    ring.push(sample(0.5)).unwrap();
    ring.push(sample(-0.25)).unwrap();
    let mut sink = PlaybackSink::new();
    let (frame, underflowed) = sink.process_frame(&mut ring, 2);
    assert!(!underflowed);
    assert_eq!(sink.underflow_events(), 0);
    assert_eq!(frame.len(), 2);
    assert_eq!(ring.len(), 0);
}

#[test]
fn grouped_frame_replicates_one_sample() {
    let mut ring = RingBuffer::new(4);
    ring.push(sample(0.75)).unwrap();
    let mut sink = PlaybackSink::new();
    let (frame, underflowed) = sink.process_grouped_frame(&mut ring, 2);
    assert!(!underflowed);
    assert_eq!(frame.len(), 2);
    assert_eq!(amplitude(frame[0]), 0.75);
    assert_eq!(amplitude(frame[1]), 0.75);
    assert!(ring.is_empty());
}

#[test]
fn grouped_frame_underflow_is_silence() {
    let mut ring = RingBuffer::new(4);
    let mut sink = PlaybackSink::new();
    let (frame, underflowed) = sink.process_grouped_frame(&mut ring, 3);
    assert!(underflowed);
    assert_eq!(sink.underflow_events(), 1);
    assert_eq!(frame.len(), 3);
    for s in frame {
        assert_eq!(amplitude(s), 0.0);
    }
    let (empty, underflowed) = sink.process_grouped_frame(&mut ring, 0);
    assert!(!underflowed);
    assert!(empty.is_empty());
    assert_eq!(sink.underflow_events(), 1);
}

#[test]
fn rate_mismatch_scenario_c() {
    // Capture produces 100 samples per tick while playback drains 90:
    // occupancy grows by 10 per tick until the buffer is full, then
    // overflow events begin and occupancy plateaus at the capacity.
    let capacity: usize = 1000;
    let mut ring = RingBuffer::new(capacity);
    let mut source = CaptureSource::new();
    let mut sink = PlaybackSink::new();

    let mut seen_overflow = false;
    let mut expected_events = 0u64;
    let mut previous_occupancy: usize = 0;
    for tick in 0..200u32 {
        let chunk: Vec<Sample> = (0..100u32).map(|i| Sample { bits: tick * 100 + i }).collect();
        let before = ring.len();
        let overflowed = source.process_chunk(&mut ring, &chunk);
        assert_eq!(overflowed, before + 100 > capacity);
        if overflowed {
            seen_overflow = true;
            expected_events += 1;
            // Once overflow begins, each capture tick tops the buffer out
            // at its capacity.
            assert_eq!(ring.len(), capacity);
        } else {
            assert!(!seen_overflow);
            assert_eq!(ring.len(), before + 100);
        }
        let (frame, _) = sink.process_frame(&mut ring, 90);
        assert_eq!(frame.len(), 90);
        // Occupancy never shrinks from tick to tick while capture outpaces
        // playback.
        assert!(ring.len() >= previous_occupancy);
        previous_occupancy = ring.len();
    }
    assert!(seen_overflow);
    assert_eq!(source.overflow_events(), expected_events);
    assert_eq!(sink.underflow_events(), 0);
}
