//! The calls the host can deliver.

use vstd::prelude::*;

verus! {

/// One of the three calls with its argument. The origin travels beside it.
#[derive(Clone, Copy, Debug, PartialEq, Eq, Structural)]
pub enum Call {
    /// Set the counter to `new_value`; for the administrative origin.
    SetCounterValue { new_value: u32 },
    /// Add `amount_to_increment` to the counter; for a signing account.
    Increment { amount_to_increment: u32 },
    /// Take `amount_to_decrement` from the counter; for a signing account.
    Decrement { amount_to_decrement: u32 },
}

} // verus!
