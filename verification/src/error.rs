//! The closed set of reasons for which a call is rejected.

use vstd::prelude::*;

verus! {

/// Why a call was rejected. A rejected call leaves the state as it was.
#[derive(Clone, Copy, Debug, PartialEq, Eq, Structural)]
pub enum Error {
    /// The caller's origin is not of the tier that the operation asks for.
    BadOrigin,
    /// The requested value lies above the configured ceiling.
    CounterValueExceedsMax,
    /// The amount to take away is larger than the current value.
    CounterValueBelowZero,
    /// Adding the amount to the current value does not fit in 32 bits.
    CounterOverflow,
    /// The caller's tally of interactions is already at its largest value.
    UserInteractionOverflow,
}

} // verus!
