//! Turns: every attempt to take a continuation out of a queue uses one up.

use vstd::prelude::*;

verus! {

/// The turns of one search. There is no second one with the same count: it can be
/// neither copied nor set back.
pub struct Turns {
    taken: Ghost<nat>,
}

/// One turn: the right to try one queue, once.
pub struct Turn {
    _used: (),
}

/// A turn. All turns are alike.
pub closed spec fn a_turn() -> Turn {
    Turn { _used: () }
}

impl Turns {
    /// How many turns were taken.
    pub closed spec fn taken(self) -> nat {
        self.taken@
    }

    /// No turn was taken.
    pub(crate) fn new() -> (turns: Turns)
        ensures
            turns.taken() == 0,
    {
        Turns { taken: Ghost(0) }
    }

    /// Takes a turn.
    pub(crate) fn take(&mut self) -> (turn: Turn)
        ensures
            turn == a_turn(),
            final(self).taken() == old(self).taken() + 1,
        opens_invariants none
        no_unwind
    {
        self.taken = Ghost(self.taken@ + 1);
        Turn { _used: () }
    }
}

} // verus!
