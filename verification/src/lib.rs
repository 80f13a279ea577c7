//! A bounded counter guarded by caller origin, with a per-account tally of
//! accepted increments and decrements.
//!
//! The state is one optional 32-bit value and a map from account to tally.
//! Three operations change it: a privileged one that sets the value, and two
//! signed ones that add to it or take from it. Each accepted call yields one
//! event; each rejected call yields one error and changes nothing.

pub mod call;
pub mod config;
pub mod error;
pub mod event;
pub mod laws;
pub mod origin;
pub mod pallet;
pub mod state;
pub mod storage;

pub use crate::call::Call;
pub use crate::config::Config;
pub use crate::error::Error;
pub use crate::event::Event;
pub use crate::origin::{ensure_root, ensure_signed, AccountId, Origin};
pub use crate::pallet::Pallet;
pub use crate::storage::{count_interaction, CounterValue, UserInteractions};
