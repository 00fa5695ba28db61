//! Identifiers and amounts.

use vstd::prelude::*;

verus! {

/// An account.
pub type AccountId = u64;

/// An amount of currency.
pub type Balance = u128;

/// A height on the chain.
pub type BlockNumber = u64;

/// The number of an auction.
pub type AuctionId = u64;

/// The number of a token class.
pub type ClassId = u64;

/// The number of a token within its class.
pub type TokenId = u64;

/// A token: its class, and its number within the class.
pub type Token = (ClassId, TokenId);

} // verus!
