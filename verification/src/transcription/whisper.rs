//! What the speech engine asks of its input, and whether it can be called.

use vstd::prelude::*;

verus! {

/// Sample rate of the mono audio the engine takes.
pub const SAMPLE_RATE: usize = 16_000;

/// Shortest audio the engine takes, in milliseconds.
pub const MIN_AUDIO_DURATION_MILLIS: u64 = 1_000;

/// Shortest audio the engine takes, in samples at [`SAMPLE_RATE`].
pub const MIN_SAMPLES: usize = 16_000;

/// Why a segment is not handed to the engine.
#[derive(Clone, Copy, Debug, PartialEq, Eq, Structural)]
pub enum SkipReason {
    /// The segment is shorter than the minimum duration.
    TooShort,
    /// The engine has not been loaded.
    NotInitialized,
}

/// What to do with a segment.
#[derive(Clone, Copy, Debug, PartialEq, Eq, Structural)]
pub enum EngineCall {
    /// Drop the segment without calling the engine.
    Skip(SkipReason),
    /// Call the engine on the segment.
    Run,
}

/// Number of samples in `millis` milliseconds of audio at `sample_rate`,
/// rounded down.
pub open spec fn samples_in(millis: u64, sample_rate: usize) -> nat {
    ((millis as nat) * (sample_rate as nat)) / 1000
}

/// Readiness of the speech engine. The engine itself lives with the caller,
/// who loads it and reports how that went.
#[derive(Clone, Copy, Debug, PartialEq, Eq, Structural)]
pub struct Engine {
    /// Whether a load has succeeded.
    pub ready: bool,
}

impl Engine {
    /// The decision for a segment of `sample_count` samples on an engine that
    /// is `ready` or not.
    pub open spec fn call_for(ready: bool, sample_count: nat) -> EngineCall {
        if sample_count < MIN_SAMPLES {
            EngineCall::Skip(SkipReason::TooShort)
        } else if !ready {
            EngineCall::Skip(SkipReason::NotInitialized)
        } else {
            EngineCall::Run
        }
    }

    /// An engine that has not been loaded.
    pub fn new() -> (engine: Self)
        ensures
            !engine.ready,
    {
        Engine { ready: false }
    }

    /// Records the result of loading the model and hands it back. A failed
    /// load leaves an engine that was ready before as it was.
    pub fn init(&mut self, loaded: Result<(), String>) -> (result: Result<(), String>)
        ensures
            result == loaded,
            final(self).ready == (old(self).ready || loaded is Ok),
    {
        if loaded.is_ok() {
            self.ready = true;
        }
        loaded
    }

    /// Decides whether the engine is called on a segment of `sample_count`
    /// samples: not on less than a second of audio, and not before it is
    /// loaded.
    pub fn transcribe(&self, sample_count: usize) -> (call: EngineCall)
        ensures
            call == Engine::call_for(self.ready, sample_count as nat),
    {
        if sample_count < MIN_SAMPLES {
            EngineCall::Skip(SkipReason::TooShort)
        } else if !self.ready {
            EngineCall::Skip(SkipReason::NotInitialized)
        } else {
            EngineCall::Run
        }
    }
}

/// The engine's minimum is one second of audio at its sample rate.
pub proof fn lemma_min_samples_is_one_second()
    ensures
        samples_in(MIN_AUDIO_DURATION_MILLIS, SAMPLE_RATE) == MIN_SAMPLES,
{
    assert((1000 as nat) * (16000 as nat) == 16_000_000);
}

} // verus!
