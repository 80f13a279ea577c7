//! What an accepted call reports to the host.

use crate::origin::AccountId;
use vstd::prelude::*;

verus! {

/// The record of one accepted call.
#[derive(Clone, Copy, Debug, PartialEq, Eq, Structural)]
pub enum Event {
    /// The counter was set to `counter_value`.
    CounterValueSet { counter_value: u32 },
    /// `who` added `incremented_amount`, and the counter now holds `counter_value`.
    CounterIncremented { counter_value: u32, who: AccountId, incremented_amount: u32 },
    /// `who` took `decremented_amount` away, and the counter now holds `counter_value`.
    CounterDecremented { counter_value: u32, who: AccountId, decremented_amount: u32 },
}

} // verus!
