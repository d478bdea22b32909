//! Core of a real-time audio relay: samples captured from an input device
//! are carried to an output device through a bounded single-producer /
//! single-consumer queue, after the queue has been primed with enough
//! silence to give the stream a configured startup latency.  A bounded
//! telemetry buffer lets an independently clocked observer watch the
//! amplitude of the output without ever stalling the real-time path.
//!
//! The hardware side — device enumeration, callback registration, terminal
//! rendering — is left to the embedding program; this crate holds the data
//! structures and decisions of the streaming path, each with a verified
//! contract.

use vstd::prelude::*;

pub mod capture;
pub mod events;
pub mod log;
pub mod playback;
pub mod prefill;
pub mod ring;
pub mod sample;
pub mod session;
pub mod telemetry;

verus! {

/// Why a started stream could not play.
#[derive(PartialEq, Eq, Debug)]
pub enum StreamError {
    /// `play` was asked of a device whose hardware stream was never built.
    NotCreated,
    /// The host audio subsystem refused, with its own message.
    Device(String),
}

/// A handle on one direction of the hardware stream.  The embedding
/// program implements this for its capture and playback devices; `play`
/// asks the hardware to begin invoking the direction's callback.
pub trait StreamDevice {
    fn play(&self) -> Result<(), StreamError>;
}

} // verus!
