//! The counter itself: its configuration, its storage, and the three calls.

use crate::call::Call;
use crate::config::Config;
use crate::error::Error;
use crate::event::Event;
use crate::origin::{ensure_root, ensure_signed, AccountId, Origin};
use crate::state::State;
use crate::storage::{CounterValue, UserInteractions};
use vstd::prelude::*;

verus! {

/// A counter with its configuration and its storage.
#[derive(Clone, Debug, PartialEq, Eq)]
pub struct Pallet {
    config: Config,
    counter_value: CounterValue,
    user_interactions: UserInteractions,
}

impl View for Pallet {
    type V = State;

    closed spec fn view(&self) -> State {
        State {
            counter_value: self.counter_value@,
            user_interactions: self.user_interactions@,
        }
    }
}

impl Pallet {
    /// The configuration this counter was made with.
    pub closed spec fn spec_config(&self) -> Config {
        self.config
    }

    /// A counter with empty storage.
    pub fn new(config: Config) -> (pallet: Pallet)
        ensures
            pallet.config() == config,
            pallet@ == State::empty(),
            pallet@.within_ceiling(config),
    {
        Pallet {
            config,
            counter_value: CounterValue::new(),
            user_interactions: UserInteractions::new(),
        }
    }

    /// A counter over storage that already exists.
    pub fn from_storage(
        config: Config,
        counter_value: CounterValue,
        user_interactions: UserInteractions,
    ) -> (pallet: Pallet)
        ensures
            pallet.config() == config,
            pallet@ == (State {
                counter_value: counter_value@,
                user_interactions: user_interactions@,
            }),
    {
        Pallet { config, counter_value, user_interactions }
    }

    /// Gives the storage back.
    pub fn into_storage(self) -> (storage: (CounterValue, UserInteractions))
        ensures
            storage.0@ == self@.counter_value,
            storage.1@ == self@.user_interactions,
    {
        (self.counter_value, self.user_interactions)
    }

    /// The configuration this counter was made with.
    #[verifier::when_used_as_spec(spec_config)]
    pub fn config(&self) -> (config: Config)
        ensures
            config == self.spec_config(),
    {
        self.config
    }

    /// The stored value of the counter, `None` while it was never written.
    pub fn counter_value(&self) -> (value: Option<u32>)
        ensures
            value == self@.counter_value,
    {
        self.counter_value.get()
    }

    /// The stored tally of `who`, `None` while it was never written.
    pub fn user_interactions(&self, who: AccountId) -> (tally: Option<u32>)
        ensures
            tally == self@.user_interactions.get(who),
    {
        self.user_interactions.get(who)
    }

    /// Makes the call `call` on behalf of `origin`: one of the three below.
    pub fn dispatch(&mut self, origin: Origin, call: Call) -> (result: Result<Event, Error>)
        ensures
            final(self).config() == old(self).config(),
            (final(self)@, result) == old(self)@.dispatch(old(self).config(), origin, call),
            result is Err ==> final(self)@ == old(self)@,
            old(self)@.within_ceiling(old(self).config()) ==> final(self)@.within_ceiling(
                final(self).config(),
            ),
    {
        match call {
            Call::SetCounterValue { new_value } => self.set_counter_value(origin, new_value),
            Call::Increment { amount_to_increment } => self.increment(origin, amount_to_increment),
            Call::Decrement { amount_to_decrement } => self.decrement(origin, amount_to_decrement),
        }
    }

    /// Sets the counter to `new_value`.
    ///
    /// Only the administrative origin may do so, and `new_value` may not
    /// exceed the ceiling. The old value plays no part, and no tally changes.
    pub fn set_counter_value(&mut self, origin: Origin, new_value: u32) -> (result: Result<
        Event,
        Error,
    >)
        ensures
            final(self).config() == old(self).config(),
            (final(self)@, result) == old(self)@.set_counter_value(
                old(self).config(),
                origin,
                new_value,
            ),
            // Which answer comes on which input.
            result == Err::<Event, Error>(Error::BadOrigin) <==> !(origin is Root),
            result == Err::<Event, Error>(Error::CounterValueExceedsMax) <==> (origin is Root
                && new_value > old(self).config().counter_max_value),
            result == Ok::<Event, Error>(Event::CounterValueSet { counter_value: new_value })
                <==> (origin is Root && new_value <= old(self).config().counter_max_value),
            // What an accepted call writes, and that a rejected one writes nothing.
            result is Ok ==> final(self)@ == (State {
                counter_value: Some(new_value),
                ..old(self)@
            }),
            result is Err ==> final(self)@ == old(self)@,
            // The ceiling holds afterwards if it held before.
            old(self)@.within_ceiling(old(self).config()) ==> final(self)@.within_ceiling(
                final(self).config(),
            ),
    {
        ensure_root(origin)?;
        if new_value > self.config.counter_max_value {
            return Err(Error::CounterValueExceedsMax);
        }
        self.counter_value.put(new_value);
        Ok(Event::CounterValueSet { counter_value: new_value })
    }

    /// Adds `amount_to_increment` to the counter on behalf of the signing
    /// account, and counts the call in that account's tally.
    ///
    /// The sum must fit in 32 bits and may not exceed the ceiling; the first
    /// is tested first. The tally is settled before the counter is written,
    /// so that a call rejected for its tally leaves the counter as it was.
    pub fn increment(&mut self, origin: Origin, amount_to_increment: u32) -> (result: Result<
        Event,
        Error,
    >)
        ensures
            final(self).config() == old(self).config(),
            (final(self)@, result) == old(self)@.increment(
                old(self).config(),
                origin,
                amount_to_increment,
            ),
            // Which answer comes on which input.
            result == Err::<Event, Error>(Error::BadOrigin) <==> !(origin is Signed),
            result == Err::<Event, Error>(Error::CounterOverflow) <==> (origin is Signed && old(
                self,
            )@.value() + amount_to_increment > u32::MAX),
            result == Err::<Event, Error>(Error::CounterValueExceedsMax) <==> (origin is Signed
                && old(self).config().counter_max_value < old(self)@.value() + amount_to_increment
                <= u32::MAX),
            result == Err::<Event, Error>(Error::UserInteractionOverflow) <==> (origin is Signed
                && old(self)@.value() + amount_to_increment <= old(self).config().counter_max_value
                && old(self)@.interactions(origin->0) == u32::MAX),
            result is Ok <==> (origin is Signed && old(self)@.value() + amount_to_increment <= old(
                self,
            ).config().counter_max_value && old(self)@.interactions(origin->0) < u32::MAX),
            // What an accepted call reports and writes, and that a rejected
            // one writes nothing.
            result matches Ok(event) ==> event == (Event::CounterIncremented {
                counter_value: (old(self)@.value() + amount_to_increment) as u32,
                who: origin->0,
                incremented_amount: amount_to_increment,
            }),
            result is Ok ==> final(self)@.counter_value == Some(
                (old(self)@.value() + amount_to_increment) as u32,
            ),
            result is Ok ==> old(self)@.tallied_once(final(self)@, origin->0),
            result is Err ==> final(self)@ == old(self)@,
            // The ceiling holds afterwards if it held before.
            old(self)@.within_ceiling(old(self).config()) ==> final(self)@.within_ceiling(
                final(self).config(),
            ),
    {
        let who = ensure_signed(origin)?;
        let current_value = self.counter_value.get().unwrap_or(0);
        let new_value = current_value.checked_add(amount_to_increment).ok_or(
            Error::CounterOverflow,
        )?;
        if new_value > self.config.counter_max_value {
            return Err(Error::CounterValueExceedsMax);
        }
        self.user_interactions.record(who)?;
        self.counter_value.put(new_value);
        Ok(
            Event::CounterIncremented {
                counter_value: new_value,
                who,
                incremented_amount: amount_to_increment,
            },
        )
    }

    /// Takes `amount_to_decrement` from the counter on behalf of the signing
    /// account, and counts the call in that account's tally.
    ///
    /// The amount may not exceed the counter's value. The ceiling is not
    /// tested. The tally is settled before the counter is written, so that a
    /// call rejected for its tally leaves the counter as it was.
    pub fn decrement(&mut self, origin: Origin, amount_to_decrement: u32) -> (result: Result<
        Event,
        Error,
    >)
        ensures
            final(self).config() == old(self).config(),
            (final(self)@, result) == old(self)@.decrement(
                old(self).config(),
                origin,
                amount_to_decrement,
            ),
            // Which answer comes on which input.
            result == Err::<Event, Error>(Error::BadOrigin) <==> !(origin is Signed),
            result == Err::<Event, Error>(Error::CounterValueBelowZero) <==> (origin is Signed
                && amount_to_decrement > old(self)@.value()),
            result == Err::<Event, Error>(Error::UserInteractionOverflow) <==> (origin is Signed
                && amount_to_decrement <= old(self)@.value() && old(self)@.interactions(origin->0)
                == u32::MAX),
            result is Ok <==> (origin is Signed && amount_to_decrement <= old(self)@.value() && old(
                self,
            )@.interactions(origin->0) < u32::MAX),
            // What an accepted call reports and writes, and that a rejected
            // one writes nothing.
            result matches Ok(event) ==> event == (Event::CounterDecremented {
                counter_value: (old(self)@.value() - amount_to_decrement) as u32,
                who: origin->0,
                decremented_amount: amount_to_decrement,
            }),
            result is Ok ==> final(self)@.counter_value == Some(
                (old(self)@.value() - amount_to_decrement) as u32,
            ),
            result is Ok ==> old(self)@.tallied_once(final(self)@, origin->0),
            result is Err ==> final(self)@ == old(self)@,
            // The ceiling holds afterwards if it held before.
            old(self)@.within_ceiling(old(self).config()) ==> final(self)@.within_ceiling(
                final(self).config(),
            ),
    {
        let who = ensure_signed(origin)?;
        let current_value = self.counter_value.get().unwrap_or(0);
        let new_value = current_value.checked_sub(amount_to_decrement).ok_or(
            Error::CounterValueBelowZero,
        )?;
        self.user_interactions.record(who)?;
        self.counter_value.put(new_value);
        Ok(
            Event::CounterDecremented {
                counter_value: new_value,
                who,
                decremented_amount: amount_to_decrement,
            },
        )
    }
}

} // verus!
