//! Edge detection on a boolean shared between threads.

use core::sync::atomic::AtomicBool;
use core::sync::atomic::Ordering;
use vstd::prelude::*;
use crate::signal::Signal;

verus! {

/// Detect rising and falling edges of a boolean state that any number of
/// threads may update through a shared reference.
///
/// What the cell holds can change between any two steps of a caller, so no
/// specification speaks of its content: each update is classified against
/// the level that its own atomic swap found. The contracts say which cell
/// that is and what was handed to the swap.
#[derive(Debug)]
pub struct AtomicState {
    state: AtomicBool,
}

impl Default for AtomicState {
    /// A detector that starts at the low level.
    fn default() -> (made: AtomicState)
        ensures
            made.made_with(false),
    {
        AtomicState::new(false)
    }
}

impl AtomicState {
    /// The detector's cell is one that `AtomicBool::new` returned for
    /// `init`: it started at that level.
    pub closed spec fn made_with(&self, init: bool) -> bool {
        call_ensures(AtomicBool::new, (init,), self.state)
    }

    /// `previous` is a level that a sequentially consistent swap of `state`
    /// into the detector's cell returned: the level that the swap found and
    /// replaced.
    pub closed spec fn swap_found(&self, state: bool, previous: bool) -> bool {
        call_ensures(AtomicBool::swap, (&self.state, state, Ordering::SeqCst), previous)
    }

    /// Creates a detector that starts at the level `init`.
    pub fn new(init: bool) -> (made: AtomicState)
        ensures
            made.made_with(init),
    {
        let state = AtomicBool::new(init);
        AtomicState { state }
    }

    /// Stores `state` and returns how the level has changed.
    ///
    /// The previous level is read and replaced in one sequentially consistent
    /// swap of `state` into the cell, and the result is [`Signal::between`]
    /// of the level that the swap found and `state`. Which level that is
    /// depends on the other callers; whichever it is, the result is never
    /// `Fell` when storing high and never `Raised` when storing low.
    #[inline(always)]
    pub fn update(&self, state: bool) -> (signal: Signal)
        ensures
            exists|previous: bool| #[trigger]
                self.swap_found(state, previous) && signal == Signal::between(previous, state),
    {
        let previous = self.state.swap(state, Ordering::SeqCst);
        assert(self.swap_found(state, previous));
        Signal::between(previous, state)
    }
}

} // verus!
