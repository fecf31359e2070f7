//! Where a call comes from.

use vstd::prelude::*;

verus! {

/// The origin of a call, as the host hands it over.
#[derive(Debug, PartialEq, Eq)]
pub enum Origin<AccountId> {
    /// The system itself, with full rights.
    Root,
    /// An account that signed the call.
    Signed(AccountId),
    /// Nobody signed: the call is part of the round itself, as an inherent is.
    Unsigned,
    /// Nobody signed, and the call brings its own authorization.
    Authorized,
}

/// The origin was not the one that the call asks for.
#[derive(Clone, Copy, Debug, PartialEq, Eq, Structural)]
pub struct BadOrigin;

impl<AccountId> Origin<AccountId> {
    /// The origin of an inherent.
    pub fn none() -> (origin: Self)
        ensures
            origin is Unsigned,
    {
        Origin::Unsigned
    }

    /// The origin of a call that `who` signed.
    pub fn signed(who: AccountId) -> (origin: Self)
        ensures
            origin == Origin::Signed(who),
    {
        Origin::Signed(who)
    }

    /// The origin of a call of the system.
    pub fn root() -> (origin: Self)
        ensures
            origin is Root,
    {
        Origin::Root
    }

    /// The origin of a call that authorizes itself.
    pub fn authorized() -> (origin: Self)
        ensures
            origin is Authorized,
    {
        Origin::Authorized
    }
}

/// Accepts the origin of an inherent and no other.
pub fn ensure_none<AccountId>(origin: Origin<AccountId>) -> (checked: Result<(), BadOrigin>)
    ensures
        checked is Ok <==> origin is Unsigned,
{
    match origin {
        Origin::Unsigned => Ok(()),
        _ => Err(BadOrigin),
    }
}

} // verus!
