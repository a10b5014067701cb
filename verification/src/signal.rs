//! The three-valued outcome of comparing two successive boolean levels.

use vstd::prelude::*;

verus! {

/// Indicates the transition of a boolean state.
#[derive(Copy, Clone, Debug)]
pub enum Signal {
    /// The state transitioned from high to low.
    Fell,
    /// The state remained unchanged, either high or low.
    Level,
    /// The state transitioned from low to high.
    Raised,
}

/// The number a boolean level stands for: 1 for high, 0 for low.
pub open spec fn level(high: bool) -> int {
    if high {
        1
    } else {
        0
    }
}

fn level_of(high: bool) -> (n: i8)
    ensures
        n == level(high),
{
    if high {
        1
    } else {
        0
    }
}

impl Signal {
    /// The signed code of the signal: -1 for `Fell`, 0 for `Level`, 1 for
    /// `Raised`.
    pub open spec fn spec_code(self) -> i8 {
        match self {
            Signal::Fell => -1i8,
            Signal::Level => 0i8,
            Signal::Raised => 1i8,
        }
    }

    /// The signal is `Raised`.
    pub open spec fn spec_raised(self) -> bool {
        self is Raised
    }

    /// The signal is `Fell`.
    pub open spec fn spec_fell(self) -> bool {
        self is Fell
    }

    /// The signal is `Raised` or `Fell`.
    pub open spec fn spec_changed(self) -> bool {
        self !is Level
    }

    /// The signal seen when the level `previous` is followed by `current`.
    pub open spec fn spec_between(previous: bool, current: bool) -> Signal {
        if previous == current {
            Signal::Level
        } else if current {
            Signal::Raised
        } else {
            Signal::Fell
        }
    }

    /// Returns the signed code of the signal: -1 for `Fell`, 0 for `Level`,
    /// 1 for `Raised`.
    #[verifier::when_used_as_spec(spec_code)]
    pub fn code(self) -> (code: i8)
        ensures
            code == self.spec_code(),
    {
        match self {
            Signal::Fell => -1,
            Signal::Level => 0,
            Signal::Raised => 1,
        }
    }

    /// Returns true if the signal is Raised.
    #[verifier::when_used_as_spec(spec_raised)]
    #[inline(always)]
    pub fn raised(self) -> (raised: bool)
        ensures
            raised == self.spec_raised(),
            raised <==> self.code() > 0,
    {
        self.code() > 0
    }

    /// Returns true if the signal is Fell.
    #[verifier::when_used_as_spec(spec_fell)]
    #[inline(always)]
    pub fn fell(self) -> (fell: bool)
        ensures
            fell == self.spec_fell(),
            fell <==> self.code() < 0,
    {
        self.code() < 0
    }

    /// Returns true if the signal is either Raised or Fell.
    #[verifier::when_used_as_spec(spec_changed)]
    #[inline(always)]
    pub fn changed(self) -> (changed: bool)
        ensures
            changed == self.spec_changed(),
            changed <==> self.code() != 0,
    {
        self.code() != 0
    }

    /// Maps a code to the signal that carries it. Only -1, 0 and 1 are codes.
    fn from_code(code: i8) -> (signal: Signal)
        requires
            -1 <= code <= 1,
        ensures
            signal.code() == code,
    {
        if code < 0 {
            Signal::Fell
        } else if code == 0 {
            Signal::Level
        } else {
            Signal::Raised
        }
    }

    /// Classifies the step from the level `previous` to the level `current`.
    ///
    /// The code of the result is the difference of the two levels, taken as
    /// numbers.
    #[verifier::when_used_as_spec(spec_between)]
    pub fn between(previous: bool, current: bool) -> (signal: Signal)
        ensures
            signal == Signal::spec_between(previous, current),
            signal.code() == level(current) - level(previous),
    {
        let difference: i8 = level_of(current) - level_of(previous);
        Signal::from_code(difference)
    }

    /// A signal reports a change exactly when it is raised or fell, and it is
    /// never both.
    pub proof fn lemma_changed_iff_raised_or_fell(self)
        ensures
            self.changed() <==> self.raised() || self.fell(),
            !(self.raised() && self.fell()),
    {
    }

    /// The code is one of -1, 0 and 1, and the three predicates read its
    /// sign.
    pub proof fn lemma_predicates_follow_code(self)
        ensures
            -1 <= self.code() <= 1,
            self.raised() <==> self.code() > 0,
            self.fell() <==> self.code() < 0,
            self.changed() <==> self.code() != 0,
    {
    }

    /// A step is raised exactly from low to high, fell exactly from high to
    /// low, and level exactly when the two levels agree; its code is the
    /// difference of the levels.
    pub proof fn lemma_between_classifies(previous: bool, current: bool)
        ensures
            Signal::between(previous, current) == Signal::Raised <==> !previous && current,
            Signal::between(previous, current) == Signal::Fell <==> previous && !current,
            Signal::between(previous, current) == Signal::Level <==> previous == current,
            Signal::between(previous, current).code() == level(current) - level(previous),
    {
    }
}

/// Equality is written out, so that its meaning is known wherever signals are
/// compared through a `PartialEq` bound.
impl PartialEq for Signal {
    fn eq(&self, other: &Signal) -> (equal: bool) {
        self.code() == other.code()
    }
}

impl vstd::std_specs::cmp::PartialEqSpecImpl for Signal {
    open spec fn obeys_eq_spec() -> bool {
        true
    }

    /// Two signals are equal when they are the same variant.
    open spec fn eq_spec(&self, other: &Signal) -> bool {
        *self == *other
    }
}

impl Eq for Signal {}

} // verus!
