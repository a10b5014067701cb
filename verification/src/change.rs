//! Change detection on a value of any type that can be compared for equality.

use vstd::prelude::*;
use vstd::std_specs::cmp::PartialEqSpec;

verus! {

/// Whether storing `value` over `previous` counts as a change: the two are
/// unequal under the type's own equality.
pub open spec fn differs<T: PartialEq>(previous: T, value: T) -> bool {
    !previous.eq_spec(&value)
}

/// Assigns value to state and returns if state has changed.
///
/// The value is stored whether or not it differs from the one it replaces.
/// The comparison is the type's `!=`, made before the store.
pub fn on_changed<T: PartialEq>(state: &mut T, value: T) -> (changed: bool)
    ensures
        *final(state) == value,
        T::obeys_eq_spec() ==> changed == differs(*old(state), value),
        call_ensures(T::ne, (old(state), &value), changed),
{
    let changed = *state != value;
    *state = value;
    changed
}

/// Storing a value reports a change exactly when it is unequal to the one it
/// replaces, and storing it a second time reports none.
///
/// The second half needs the value to be equal to itself, which a type's
/// equality need not grant: it fails for a floating-point NaN.
pub proof fn lemma_repeated_value_is_no_change<T: PartialEq>(previous: T, value: T)
    requires
        value.eq_spec(&value),
    ensures
        differs(previous, value) <==> !previous.eq_spec(&value),
        !differs(value, value),
{
}

} // verus!
