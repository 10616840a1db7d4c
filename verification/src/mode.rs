//! What the display shows.

use vstd::prelude::*;

verus! {

/// The two things the display can show.
#[derive(Clone, Copy, Debug, PartialEq, Eq, Structural)]
pub enum Mode {
    /// The constant greeting.
    Message,
    /// The live countdown.
    Timer,
}

impl Mode {
    /// The other mode.
    pub open spec fn flipped(self) -> Mode {
        match self {
            Mode::Message => Mode::Timer,
            Mode::Timer => Mode::Message,
        }
    }

    /// Switches to the other mode; called once per detected edge.
    pub fn toggle(self) -> (next: Mode)
        ensures
            next == self.flipped(),
    {
        match self {
            Mode::Message => Mode::Timer,
            Mode::Timer => Mode::Message,
        }
    }
}

/// Flipping twice is the identity, and flipping always changes the mode.
pub proof fn lemma_flip_involution(mode: Mode)
    ensures
        mode.flipped().flipped() == mode,
        mode.flipped() != mode,
        Mode::Message.flipped() == Mode::Timer,
        Mode::Timer.flipped() == Mode::Message,
{
}

} // verus!
