//! Where the application stands in the cycle of one frame.

use vstd::prelude::*;

verus! {

/// The last step of the frame cycle that was taken.
#[derive(Clone, Copy, Debug, PartialEq, Eq, Structural)]
pub enum FrameState {
    /// A frame was waited for.
    Waited,
    /// The frame that was waited for was begun.
    Begun,
    /// The frame was handed to the runtime.
    Submitted,
}

impl FrameState {
    /// The steps of the cycle: a waited frame can only be begun; a begun frame is submitted, or
    /// abandoned by waiting for the next one; after a submitted frame comes the next wait.
    pub open spec fn may_advance(self, new: FrameState) -> bool {
        ||| self is Waited && new is Begun
        ||| self is Begun && new is Submitted
        ||| self is Begun && new is Waited
        ||| self is Submitted && new is Waited
    }

    /// The state after an attempt to reach `new`: a forbidden step changes nothing.
    pub open spec fn advanced(self, new: FrameState) -> FrameState {
        if self.may_advance(new) {
            new
        } else {
            self
        }
    }

    /// Takes the step to `new` if the cycle allows it, and tells whether it did.
    pub fn advance_to(&mut self, new: FrameState) -> (allowed: bool)
        ensures
            allowed == old(self).may_advance(new),
            *final(self) == old(self).advanced(new),
    {
        let allowed: bool = match *self {
            FrameState::Waited => new == FrameState::Begun,
            FrameState::Begun => new != FrameState::Begun,
            FrameState::Submitted => new == FrameState::Waited,
        };
        if allowed {
            *self = new;
        }
        allowed
    }
}

/// No step leads from a state to itself, and a frame is submitted only from `Begun` and begun only
/// from `Waited`.
pub proof fn law_frame_cycle(from: FrameState, to: FrameState)
    ensures
        !from.may_advance(from),
        to is Submitted && from.may_advance(to) ==> from is Begun,
        to is Begun && from.may_advance(to) ==> from is Waited,
{
}

} // verus!
