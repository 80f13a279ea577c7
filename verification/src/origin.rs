//! Caller origins and the two checks made on them.

use crate::error::Error;
use vstd::prelude::*;

verus! {

/// The key under which the host knows an account.
pub type AccountId = u64;

/// Who makes a call, as the host has established it.
#[derive(Clone, Copy, Debug, PartialEq, Eq, Structural)]
pub enum Origin {
    /// The administrative origin.
    Root,
    /// An origin that stands for the given account.
    Signed(AccountId),
    /// Any origin that is neither of the above, such as an unsigned one.
    Other,
}

/// Accepts the administrative origin and nothing else.
pub fn ensure_root(origin: Origin) -> (result: Result<(), Error>)
    ensures
        origin is Root ==> result == Ok::<(), Error>(()),
        !(origin is Root) ==> result == Err::<(), Error>(Error::BadOrigin),
{
    match origin {
        Origin::Root => Ok(()),
        _ => Err(Error::BadOrigin),
    }
}

/// Accepts an origin that stands for an account, and returns that account.
pub fn ensure_signed(origin: Origin) -> (result: Result<AccountId, Error>)
    ensures
        result == (match origin {
            Origin::Signed(who) => Ok::<AccountId, Error>(who),
            _ => Err(Error::BadOrigin),
        }),
{
    match origin {
        Origin::Signed(who) => Ok(who),
        _ => Err(Error::BadOrigin),
    }
}

} // verus!
