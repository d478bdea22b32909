use vstd::prelude::*;

verus! {

/// One audio amplitude, carried as the raw bit pattern of the IEEE 754
/// single-precision value that the hardware exchanges.  The streaming core
/// never interprets an amplitude numerically — it only stores and moves
/// samples — so it keeps the 32 bits unchanged end to end.  The all-zero
/// pattern is the amplitude 0.0, the silence substituted on underflow.
#[derive(Clone, Copy, PartialEq, Eq, Structural, Debug)]
pub struct Sample {
    pub bits: u32,
}

impl Sample {
    /// The silent sample: amplitude 0.0, whose bit pattern is all zeros.
    pub fn silence() -> (s: Sample)
        ensures
            s == Sample::spec_silence(),
    {
        Sample { bits: 0 }
    }

    /// What `silence` returns.
    pub open spec fn spec_silence() -> Sample {
        Sample { bits: 0 }
    }
}

/// `n` silent samples: what priming writes, and what playback emits for
/// the slots an underflowing buffer could not serve.
pub open spec fn silence_seq(n: int) -> Seq<Sample> {
    Seq::new(n as nat, |i: int| Sample::spec_silence())
}

} // verus!
