//! What holds of the counter whatever calls are made.

use crate::call::Call;
use crate::config::Config;
use crate::error::Error;
use crate::event::Event;
use crate::origin::{AccountId, Origin};
use crate::state::State;
use vstd::prelude::*;

verus! {

/// No call lifts the counter above the ceiling: from a state within the
/// ceiling, every call, accepted or rejected, leads to a state within it.
pub proof fn lemma_call_keeps_ceiling(state: State, config: Config, origin: Origin, call: Call)
    requires
        state.within_ceiling(config),
    ensures
        state.dispatch(config, origin, call).0.within_ceiling(config),
{
}

/// In every state that calls can lead to from the empty state, the counter's
/// value lies between zero and the ceiling.
pub proof fn lemma_reachable_within_ceiling(config: Config, calls: Seq<(Origin, Call)>)
    ensures
        0 <= State::after(config, calls).value() <= config.counter_max_value,
    decreases calls.len(),
{
    if calls.len() > 0 {
        lemma_reachable_within_ceiling(config, calls.drop_last());
        lemma_call_keeps_ceiling(
            State::after(config, calls.drop_last()),
            config,
            calls.last().0,
            calls.last().1,
        );
    }
}

/// A rejected call is followed by the state it found.
pub proof fn lemma_rejected_call_changes_nothing(
    state: State,
    config: Config,
    origin: Origin,
    call: Call,
)
    requires
        state.dispatch(config, origin, call).1 is Err,
    ensures
        state.dispatch(config, origin, call).0 == state,
{
}

/// No call removes an entry from the tallies or lowers one.
pub proof fn lemma_tallies_never_shrink(
    state: State,
    config: Config,
    origin: Origin,
    call: Call,
    who: AccountId,
)
    ensures
        state.user_interactions.contains_key(who) ==> state.dispatch(
            config,
            origin,
            call,
        ).0.user_interactions.contains_key(who),
        state.interactions(who) <= state.dispatch(config, origin, call).0.interactions(who),
{
}

/// Setting the counter from any origin but the administrative one is
/// rejected for the origin, whatever the value, and changes nothing.
pub proof fn lemma_set_counter_value_needs_root(
    state: State,
    config: Config,
    origin: Origin,
    new_value: u32,
)
    requires
        !(origin is Root),
    ensures
        state.set_counter_value(config, origin, new_value) == (
            state,
            Err::<Event, Error>(Error::BadOrigin),
        ),
{
}

/// An accepted increment or decrement by an account raises that account's
/// tally by exactly one and leaves every other account's entry as it was.
pub proof fn lemma_accepted_call_is_tallied_once(
    state: State,
    config: Config,
    who: AccountId,
    call: Call,
)
    requires
        call is Increment || call is Decrement,
        state.dispatch(config, Origin::Signed(who), call).1 is Ok,
    ensures
        ({
            let next = state.dispatch(config, Origin::Signed(who), call).0;
            &&& next.interactions(who) == state.interactions(who) + 1
            &&& forall|other: AccountId|
                other != who ==> next.user_interactions.get(other)
                    == state.user_interactions.get(other)
        }),
{
}

/// An increment by a signing account whose sum does not fit in 32 bits is
/// rejected as an overflow, whatever the ceiling, and changes nothing.
pub proof fn lemma_increment_overflow_is_rejected(
    state: State,
    config: Config,
    who: AccountId,
    amount: u32,
)
    requires
        state.value() + amount > u32::MAX,
    ensures
        state.increment(config, Origin::Signed(who), amount) == (
            state,
            Err::<Event, Error>(Error::CounterOverflow),
        ),
{
}

/// A decrement by a signing account of more than the counter holds is
/// rejected and changes nothing.
pub proof fn lemma_decrement_below_zero_is_rejected(
    state: State,
    config: Config,
    who: AccountId,
    amount: u32,
)
    requires
        amount > state.value(),
    ensures
        state.decrement(config, Origin::Signed(who), amount) == (
            state,
            Err::<Event, Error>(Error::CounterValueBelowZero),
        ),
{
}

/// The administrative origin can set the ceiling itself, and cannot set the
/// value one above it.
pub proof fn lemma_ceiling_is_the_last_value_set(state: State, config: Config)
    ensures
        state.set_counter_value(config, Origin::Root, config.counter_max_value) == (
            State { counter_value: Some(config.counter_max_value), ..state },
            Ok::<Event, Error>(Event::CounterValueSet { counter_value: config.counter_max_value }),
        ),
        config.counter_max_value < u32::MAX ==> state.set_counter_value(
            config,
            Origin::Root,
            (config.counter_max_value + 1) as u32,
        ) == (state, Err::<Event, Error>(Error::CounterValueExceedsMax)),
{
}

} // verus!
