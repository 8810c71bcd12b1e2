//! The audio side: what one invocation of the real-time callback does with
//! the buffer it is handed.

use vstd::prelude::*;

verus! {

/// A request from the display for the next measurement. It carries nothing:
/// only its presence counts, and the audio side never works off a backlog.
pub struct Next;

/// What the audio callback does with the current buffer.
#[derive(PartialEq, Eq, Structural, Clone, Copy, Debug)]
pub enum SamplerStep {
    /// The display has not asked for a value: leave the buffer alone.
    Idle,
    /// A value was asked for, but the buffer holds no sample to average:
    /// answer nothing this cycle.
    SkipEmpty,
    /// Average the buffer and publish its level.
    Measure,
}

/// Decide the callback's work from whether a request is pending and how many
/// samples the buffer holds.
pub fn sampler_step(requested: bool, buffer_len: usize) -> (s: SamplerStep)
    ensures
        !requested ==> s == SamplerStep::Idle,
        requested && buffer_len == 0 ==> s == SamplerStep::SkipEmpty,
        requested && buffer_len > 0 ==> s == SamplerStep::Measure,
{
    if !requested {
        SamplerStep::Idle
    } else if buffer_len == 0 {
        SamplerStep::SkipEmpty
    } else {
        SamplerStep::Measure
    }
}

} // verus!
