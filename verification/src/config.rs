//! What the host fixes when it sets the counter up.

use vstd::prelude::*;

verus! {

/// The configuration of a counter. It does not change once a counter is made.
#[derive(Clone, Copy, Debug, PartialEq, Eq, Structural)]
pub struct Config {
    /// The largest value the counter may hold.
    pub counter_max_value: u32,
}

} // verus!
