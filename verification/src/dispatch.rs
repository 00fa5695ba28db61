//! Call origins, and the one error type that every call ends in.

use vstd::prelude::*;
use crate::primitives::AccountId;

verus! {

/// Where a call comes from.
#[derive(Clone, Copy, Debug, PartialEq, Eq, Structural)]
pub enum RawOrigin {
    /// The chain itself.
    Root,
    /// An account that signed the call.
    Signed(AccountId),
    /// No account at all.
    Unsigned,
}

/// The origin of a call is not the one the call asks for.
#[derive(Clone, Copy, Debug, PartialEq, Eq, Structural)]
pub struct BadOrigin;

/// Why a call was refused.
#[derive(Clone, Copy, Debug, PartialEq, Eq, Structural)]
pub enum DispatchError {
    /// The call was not signed.
    BadOrigin,
    /// The token registry refused.
    Nft(crate::nft::Error),
    /// The auction rules refused.
    Auction(crate::error::Error),
}

/// The account that signed a call, where one did.
pub open spec fn signer(origin: RawOrigin) -> Option<AccountId> {
    match origin {
        RawOrigin::Signed(who) => Some(who),
        _ => None,
    }
}

/// The account behind a signed origin; any other origin is refused.
pub fn ensure_signed(origin: RawOrigin) -> (r: Result<AccountId, BadOrigin>)
    ensures
        r == match signer(origin) {
            Some(who) => Ok::<AccountId, BadOrigin>(who),
            None => Err::<AccountId, BadOrigin>(BadOrigin),
        },
{
    match origin {
        RawOrigin::Signed(who) => Ok(who),
        _ => Err(BadOrigin),
    }
}

} // verus!
