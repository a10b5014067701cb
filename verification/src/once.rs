//! A guard that lets one caller through, once.

use vstd::prelude::*;
use crate::atomic::AtomicState;
use crate::signal::Signal;
use crate::state::State;

verus! {

/// A flag that starts unset and is set by the first caller that asks.
///
/// Share one guard between all the callers of the statement it protects, and
/// run the statement where [`RunOnce::first`] returns true.
#[derive(Debug)]
pub struct RunOnce {
    flag: AtomicState,
}

impl Default for RunOnce {
    /// A guard whose flag is unset.
    fn default() -> (guard: RunOnce)
        ensures
            guard.made_unset(),
    {
        RunOnce::new()
    }
}

impl RunOnce {
    /// The guard's flag started unset.
    pub closed spec fn made_unset(&self) -> bool {
        self.flag.made_with(false)
    }

    /// `previous` is a level that setting the guard's flag found in it: what
    /// the atomic swap that set the flag returned.
    pub closed spec fn set_found(&self, previous: bool) -> bool {
        self.flag.swap_found(true, previous)
    }

    /// Creates a guard whose flag is unset.
    pub fn new() -> (guard: RunOnce)
        ensures
            guard.made_unset(),
    {
        RunOnce { flag: AtomicState::new(false) }
    }

    /// Sets the flag, and returns true if this call found it unset.
    ///
    /// The flag is tested and set in one atomic update to the high level; the
    /// caller is first exactly when that update is raised, which is when the
    /// level it found was low.
    pub fn first(&self) -> (run: bool)
        ensures
            exists|previous: bool| #[trigger] self.set_found(previous) && run == !previous,
    {
        let signal = self.flag.update(true);
        proof {
            let previous = choose|previous: bool| #[trigger]
                self.flag.swap_found(true, previous) && signal == Signal::between(previous, true);
            assert(self.set_found(previous));
        }
        signal.raised()
    }

    /// Setting the flag is raised exactly when the flag was unset before.
    pub proof fn lemma_raised_iff_unset(previous: bool)
        ensures
            Signal::between(previous, true).raised() <==> !previous,
    {
    }

    /// When a flag that starts unset is set any number of times, one after
    /// the other, the first update is raised and no later one is.
    pub proof fn lemma_only_first_is_raised(flag: State, sets: Seq<bool>, i: int)
        requires
            flag@ == false,
            forall|k: int| 0 <= k < sets.len() ==> sets[k],
            0 <= i < sets.len(),
        ensures
            flag.signal_at(sets, i).raised() <==> i == 0,
    {
        flag.lemma_update_classifies(true);
        if i > 0 {
            flag.lemma_repeat_in_run_is_level(sets, i);
        }
    }
}

} // verus!
