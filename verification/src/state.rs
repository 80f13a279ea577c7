//! The counter as a state machine: its state, and what each call makes of it.
//!
//! Every call is a total function from a state, an origin and an argument to
//! a pair: the state that follows, and the event of an accepted call or the
//! error of a rejected one. A rejected call is followed by the state it found.

use crate::call::Call;
use crate::config::Config;
use crate::error::Error;
use crate::event::Event;
use crate::origin::{AccountId, Origin};
use crate::storage::counted;
use vstd::prelude::*;

verus! {

/// What is stored: the counter's value, absent until first written, and the
/// tallies of interactions by account.
pub struct State {
    pub counter_value: Option<u32>,
    pub user_interactions: Map<AccountId, u32>,
}

impl State {
    /// The state before any call: no value, no tallies.
    pub open spec fn empty() -> State {
        State { counter_value: None, user_interactions: Map::empty() }
    }

    /// The counter's value as calls read it: zero while absent.
    pub open spec fn value(self) -> u32 {
        match self.counter_value {
            Some(value) => value,
            None => 0,
        }
    }

    /// The tally of `who` as calls read it: zero while absent.
    pub open spec fn interactions(self, who: AccountId) -> u32 {
        match self.user_interactions.get(who) {
            Some(tally) => tally,
            None => 0,
        }
    }

    /// The counter's value does not exceed the ceiling of `config`.
    pub open spec fn within_ceiling(self, config: Config) -> bool {
        self.value() <= config.counter_max_value
    }

    /// Between this state and `after`, `who` has made exactly one more
    /// interaction, and no other account's entry has changed.
    pub open spec fn tallied_once(self, after: State, who: AccountId) -> bool {
        &&& after.interactions(who) == self.interactions(who) + 1
        &&& forall|other: AccountId|
            other != who ==> after.user_interactions.get(other) == self.user_interactions.get(
                other,
            )
    }

    /// The state in which the counter holds `new_value` and `who` has the
    /// tally `tally`; all other tallies are those of `self`.
    pub open spec fn tallied(self, new_value: u32, who: AccountId, tally: u32) -> State {
        State {
            counter_value: Some(new_value),
            user_interactions: self.user_interactions.insert(who, tally),
        }
    }

    /// Setting the counter to `new_value`. Only the administrative origin may
    /// do so, and only up to the ceiling. The tallies stay as they are.
    pub open spec fn set_counter_value(self, config: Config, origin: Origin, new_value: u32) -> (
        State,
        Result<Event, Error>,
    ) {
        if !(origin is Root) {
            (self, Err(Error::BadOrigin))
        } else if new_value > config.counter_max_value {
            (self, Err(Error::CounterValueExceedsMax))
        } else {
            (
                State { counter_value: Some(new_value), ..self },
                Ok(Event::CounterValueSet { counter_value: new_value }),
            )
        }
    }

    /// Adding `amount` to the counter on behalf of an account. The sum must
    /// fit in 32 bits, which is tested first, and must not exceed the ceiling;
    /// the account's tally must be able to grow by one.
    pub open spec fn increment(self, config: Config, origin: Origin, amount: u32) -> (
        State,
        Result<Event, Error>,
    ) {
        match origin {
            Origin::Signed(who) => {
                if self.value() + amount > u32::MAX {
                    (self, Err(Error::CounterOverflow))
                } else if self.value() + amount > config.counter_max_value {
                    (self, Err(Error::CounterValueExceedsMax))
                } else {
                    let new_value = (self.value() + amount) as u32;
                    match counted(self.user_interactions.get(who)) {
                        Ok(tally) => (
                            self.tallied(new_value, who, tally),
                            Ok(
                                Event::CounterIncremented {
                                    counter_value: new_value,
                                    who,
                                    incremented_amount: amount,
                                },
                            ),
                        ),
                        Err(e) => (self, Err(e)),
                    }
                }
            },
            _ => (self, Err(Error::BadOrigin)),
        }
    }

    /// Taking `amount` from the counter on behalf of an account. The amount
    /// must not exceed the counter's value; the account's tally must be able
    /// to grow by one. The ceiling plays no part.
    pub open spec fn decrement(self, config: Config, origin: Origin, amount: u32) -> (
        State,
        Result<Event, Error>,
    ) {
        match origin {
            Origin::Signed(who) => {
                if amount > self.value() {
                    (self, Err(Error::CounterValueBelowZero))
                } else {
                    let new_value = (self.value() - amount) as u32;
                    match counted(self.user_interactions.get(who)) {
                        Ok(tally) => (
                            self.tallied(new_value, who, tally),
                            Ok(
                                Event::CounterDecremented {
                                    counter_value: new_value,
                                    who,
                                    decremented_amount: amount,
                                },
                            ),
                        ),
                        Err(e) => (self, Err(e)),
                    }
                }
            },
            _ => (self, Err(Error::BadOrigin)),
        }
    }

    /// What the call `call` from `origin` makes of this state.
    pub open spec fn dispatch(self, config: Config, origin: Origin, call: Call) -> (
        State,
        Result<Event, Error>,
    ) {
        match call {
            Call::SetCounterValue { new_value } => self.set_counter_value(
                config,
                origin,
                new_value,
            ),
            Call::Increment { amount_to_increment } => self.increment(
                config,
                origin,
                amount_to_increment,
            ),
            Call::Decrement { amount_to_decrement } => self.decrement(
                config,
                origin,
                amount_to_decrement,
            ),
        }
    }

    /// The state that a sequence of calls, made in order, leads to from the
    /// empty state.
    pub open spec fn after(config: Config, calls: Seq<(Origin, Call)>) -> State
        decreases calls.len(),
    {
        if calls.len() == 0 {
            State::empty()
        } else {
            State::after(config, calls.drop_last()).dispatch(
                config,
                calls.last().0,
                calls.last().1,
            ).0
        }
    }
}

} // verus!
