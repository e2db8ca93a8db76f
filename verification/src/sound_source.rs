//! One emitter of the array.

use vstd::prelude::*;

verus! {

/// A point in world space: the words of three single-precision coordinates.
pub type Vector3 = [u32; 3];

/// A transducer: where it sits, where it faces, and how it is driven.
#[derive(Debug, Clone, Copy)]
pub struct SoundSource {
    /// Position, as single-precision words.
    pub pos: Vector3,
    /// Unit normal of the emitting face, as single-precision words.
    pub dir: Vector3,
    /// Amplitude, normalized: 65535 is full amplitude.
    pub amp: u16,
    /// Phase, normalized: 65535 is a full turn.
    pub phase: u16,
}

impl SoundSource {
    /// A transducer at `pos` that faces along `dir` and is driven with
    /// `amp` and `phase`.
    pub fn new(pos: Vector3, dir: Vector3, amp: u16, phase: u16) -> (s: SoundSource)
        ensures
            s.pos == pos,
            s.dir == dir,
            s.amp == amp,
            s.phase == phase,
    {
        SoundSource { pos, dir, amp, phase }
    }

    /// The same transducer driven with `amp` and `phase`.
    pub open spec fn with_drive(self, amp: u16, phase: u16) -> SoundSource {
        SoundSource { pos: self.pos, dir: self.dir, amp, phase }
    }

    /// The same transducer driven with `amp`, its phase kept.
    pub open spec fn with_amp(self, amp: u16) -> SoundSource {
        SoundSource { pos: self.pos, dir: self.dir, amp, phase: self.phase }
    }
}

} // verus!
