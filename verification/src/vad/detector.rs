//! The interface of a voice activity detector.

use crate::audio::buffer::AudioChunk;
use crate::Error;
use vstd::prelude::*;

verus! {

/// What a detector says of one chunk.
#[derive(Debug, Clone, Copy, PartialEq, Eq, Structural)]
pub enum VadDecision {
    /// Speech detected.
    Speech,
    /// Silence or noise detected.
    Silence,
}

/// A voice activity detector: it classifies chunks one by one, in capture
/// order, and may keep state between them.
///
/// Each detector says for itself, in `detects`, `resets` and `is_named`,
/// what its methods do; a detector that promises nothing leaves them as
/// they are.
pub trait VadDetector {
    /// Whether `detect`, called on `pre` with `chunk`, may leave `post`
    /// behind and return `result`.
    open spec fn detects(
        pre: &Self,
        chunk: &AudioChunk,
        post: &Self,
        result: Result<VadDecision, Error>,
    ) -> bool {
        true
    }

    /// Whether `reset`, called on `pre`, may leave `post` behind.
    open spec fn resets(pre: &Self, post: &Self) -> bool {
        true
    }

    /// Classifies one chunk.
    fn detect(&mut self, chunk: &AudioChunk) -> (result: Result<VadDecision, Error>)
        ensures
            Self::detects(old(self), chunk, final(self), result),
    ;

    /// Whether `name` is the detector's name.
    open spec fn is_named(&self, name: &str) -> bool {
        true
    }

    /// The detector's name.
    fn name(&self) -> (name: &str)
        ensures
            self.is_named(name),
    ;

    /// Forgets everything learnt from earlier chunks.
    fn reset(&mut self)
        ensures
            Self::resets(old(self), final(self)),
    ;
}

} // verus!
