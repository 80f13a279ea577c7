//! The two stored entities: the counter's value and the tallies by account.

use crate::error::Error;
use crate::origin::AccountId;
use std::collections::HashMap;
use vstd::prelude::*;

verus! {

broadcast use vstd::std_specs::hash::group_hash_axioms;

/// The slot that holds the counter's value. It is empty until the first write.
#[derive(Clone, Copy, Debug, PartialEq, Eq)]
pub struct CounterValue {
    value: Option<u32>,
}

impl View for CounterValue {
    type V = Option<u32>;

    closed spec fn view(&self) -> Option<u32> {
        self.value
    }
}

impl CounterValue {
    /// The empty slot.
    pub fn new() -> (slot: CounterValue)
        ensures
            slot@ == None::<u32>,
    {
        CounterValue { value: None }
    }

    /// What the slot holds.
    pub fn get(&self) -> (value: Option<u32>)
        ensures
            value == self@,
    {
        self.value
    }

    /// Writes `value` into the slot, over whatever it held.
    pub fn put(&mut self, value: u32)
        ensures
            final(self)@ == Some(value),
    {
        self.value = Some(value);
    }
}

/// The tally that follows a stored one, where an absent entry counts as zero.
/// The largest 32-bit tally has no successor.
pub open spec fn counted(interactions: Option<u32>) -> Result<u32, Error> {
    let tally = match interactions {
        Some(n) => n,
        None => 0u32,
    };
    if tally < u32::MAX {
        Ok((tally + 1) as u32)
    } else {
        Err(Error::UserInteractionOverflow)
    }
}

/// Counts one more interaction on top of a stored tally.
pub fn count_interaction(interactions: Option<u32>) -> (result: Result<u32, Error>)
    ensures
        result == counted(interactions),
{
    interactions.unwrap_or(0).checked_add(1).ok_or(Error::UserInteractionOverflow)
}

/// The tallies of interactions, by account. An account without an entry has
/// made none.
#[derive(Clone, Debug, PartialEq, Eq)]
pub struct UserInteractions {
    tallies: HashMap<AccountId, u32>,
}

impl View for UserInteractions {
    type V = Map<AccountId, u32>;

    closed spec fn view(&self) -> Map<AccountId, u32> {
        self.tallies@
    }
}

impl UserInteractions {
    /// The map without entries.
    pub fn new() -> (tallies: UserInteractions)
        ensures
            tallies@ == Map::<AccountId, u32>::empty(),
    {
        UserInteractions { tallies: HashMap::new() }
    }

    /// The entry of `who`, if there is one.
    pub fn get(&self, who: AccountId) -> (tally: Option<u32>)
        ensures
            tally == self@.get(who),
    {
        match self.tallies.get(&who) {
            Some(tally) => Some(*tally),
            None => None,
        }
    }

    /// Sets the entry of `who` to `tally`, or removes it where `tally` is `None`.
    pub fn set(&mut self, who: AccountId, tally: Option<u32>)
        ensures
            final(self)@ == (match tally {
                Some(n) => old(self)@.insert(who, n),
                None => old(self)@.remove(who),
            }),
    {
        match tally {
            Some(n) => {
                self.tallies.insert(who, n);
            },
            None => {
                self.tallies.remove(&who);
            },
        }
    }

    /// Counts one more interaction of `who` and returns the new tally. Where
    /// the tally cannot grow, nothing is written.
    pub fn record(&mut self, who: AccountId) -> (result: Result<u32, Error>)
        ensures
            result == counted(old(self)@.get(who)),
            final(self)@ == (match result {
                Ok(next) => old(self)@.insert(who, next),
                Err(_) => old(self)@,
            }),
    {
        let next: u32 = count_interaction(self.get(who))?;
        self.tallies.insert(who, next);
        Ok(next)
    }
}

} // verus!
