//! Edge detection on a boolean owned by a single caller.

use vstd::prelude::*;
use crate::signal::level;
use crate::signal::Signal;

verus! {

/// Detect rising and falling edges of boolean state.
#[derive(Debug)]
pub struct State {
    state: bool,
}

impl View for State {
    type V = bool;

    /// The level the detector currently holds.
    closed spec fn view(&self) -> bool {
        self.state
    }
}

impl Clone for State {
    fn clone(&self) -> (copy: State)
        ensures
            copy == *self,
    {
        State { state: self.state }
    }
}

impl Default for State {
    /// A detector that holds the low level.
    fn default() -> (detector: State)
        ensures
            detector@ == false,
    {
        State { state: false }
    }
}

impl From<bool> for State {
    #[inline(always)]
    fn from(state: bool) -> (detector: State)
        ensures
            detector@ == state,
    {
        State { state }
    }
}

impl vstd::std_specs::convert::FromSpecImpl<bool> for State {
    open spec fn obeys_from_spec() -> bool {
        true
    }

    closed spec fn from_spec(state: bool) -> State {
        State { state }
    }
}

impl From<State> for bool {
    #[inline(always)]
    fn from(detector: State) -> (state: bool)
        ensures
            state == detector@,
    {
        detector.state
    }
}

impl vstd::std_specs::convert::FromSpecImpl<State> for bool {
    open spec fn obeys_from_spec() -> bool {
        true
    }

    open spec fn from_spec(detector: State) -> bool {
        detector@
    }
}

impl State {
    /// Creates a detector that holds the low level.
    pub fn default() -> (detector: State)
        ensures
            detector@ == false,
    {
        State { state: false }
    }

    /// Creates a detector that holds `state`. No signal is produced for it.
    pub fn from(state: bool) -> (detector: State)
        ensures
            detector@ == state,
    {
        State { state }
    }

    /// Updates the state and returns how it has changed.
    #[inline(always)]
    pub fn update(&mut self, state: bool) -> (signal: Signal)
        ensures
            final(self)@ == state,
            signal == Signal::between(old(self)@, state),
            (*final(self), signal) == old(self).spec_update(state),
    {
        let signal = Signal::between(self.state, state);
        self.state = state;
        signal
    }

    /// What `update` makes of a detector and an input: the detector
    /// afterwards, and the signal returned.
    pub closed spec fn spec_update(self, state: bool) -> (State, Signal) {
        (State { state }, Signal::between(self.state, state))
    }

    /// The detector after it has been updated with each of `inputs` in turn.
    pub open spec fn after(self, inputs: Seq<bool>) -> State
        decreases inputs.len(),
    {
        if inputs.len() == 0 {
            self
        } else {
            self.after(inputs.drop_last()).spec_update(inputs.last()).0
        }
    }

    /// The signal that the update with `inputs[i]` returns, when the detector
    /// is updated with each of `inputs` in turn.
    pub open spec fn signal_at(self, inputs: Seq<bool>, i: int) -> Signal
        recommends
            0 <= i < inputs.len(),
    {
        self.after(inputs.take(i)).spec_update(inputs[i]).1
    }

    /// The sum of the codes of the first `n` signals of a run over `inputs`.
    pub open spec fn code_sum(self, inputs: Seq<bool>, n: int) -> int
        recommends
            0 <= n <= inputs.len(),
        decreases n,
    {
        if n <= 0 {
            0
        } else {
            self.code_sum(inputs, n - 1) + self.signal_at(inputs, n - 1).code()
        }
    }

    /// An update leaves the detector at its input and returns the step from
    /// the level it held: raised exactly from low to high, fell exactly from
    /// high to low, level exactly when nothing changed.
    pub proof fn lemma_update_classifies(self, state: bool)
        ensures
            self.spec_update(state).0@ == state,
            self.spec_update(state).1 == Signal::between(self@, state),
            self.spec_update(state).1 == Signal::Raised <==> !self@ && state,
            self.spec_update(state).1 == Signal::Fell <==> self@ && !state,
            self.spec_update(state).1 == Signal::Level <==> self@ == state,
    {
    }

    /// After every update of a run the detector holds the input of that
    /// update, whatever came before it.
    pub proof fn lemma_state_is_last_input(self, inputs: Seq<bool>)
        ensures
            inputs.len() > 0 ==> self.after(inputs)@ == inputs.last(),
            forall|n: int| 0 < n <= inputs.len() ==> (#[trigger] self.after(inputs.take(n)))@ == inputs[n - 1],
    {
    }

    /// Updating twice in a row with the same input returns `Level` the second
    /// time, whatever the detector held before.
    pub proof fn lemma_repeated_input_is_level(self, state: bool)
        ensures
            self.spec_update(state).0.spec_update(state).1 == Signal::Level,
    {
    }

    /// In a run, an input that repeats the one before it is answered with
    /// `Level`.
    pub proof fn lemma_repeat_in_run_is_level(self, inputs: Seq<bool>, i: int)
        requires
            0 < i < inputs.len(),
            inputs[i] == inputs[i - 1],
        ensures
            self.signal_at(inputs, i) == Signal::Level,
    {
        self.lemma_state_is_last_input(inputs);
    }

    /// The codes of the first `n` signals of a run add up to the net change
    /// of level: the level after those updates minus the level before the
    /// run.
    pub proof fn lemma_codes_sum_to_net_change(self, inputs: Seq<bool>, n: int)
        requires
            0 <= n <= inputs.len(),
        ensures
            self.code_sum(inputs, n) == level(self.after(inputs.take(n))@) - level(self@),
        decreases n,
    {
        if n > 0 {
            self.lemma_codes_sum_to_net_change(inputs, n - 1);
        }
    }
}

} // verus!
