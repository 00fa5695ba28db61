//! What the auction rules ask of the token registry and the currency ledger.
//!
//! The rules never reach into either. A call that goes through hands back a
//! list of [`Effect`]s, and the host carries them out, in order, in the same
//! step in which it keeps the new auction table.

use vstd::prelude::*;
use crate::primitives::{AccountId, AuctionId, Balance, Token};
use crate::nft::{Error, TokenEntry, holder_check};

verus! {

/// One thing for the host to do.
#[derive(Clone, Copy, Debug, PartialEq, Eq)]
pub enum Effect {
    /// Flip the lock flag of `token` in the registry, on behalf of `account`.
    ToggleLock { account: AccountId, token: Token },
    /// Hand `token` over from `from` to `to` in the registry.
    TransferToken { from: AccountId, to: AccountId, token: Token },
    /// Hold `amount` of the funds of `account` under the lock of `auction`.
    SetLock { auction: AuctionId, account: AccountId, amount: Balance },
    /// Let go of what `account` has held under the lock of `auction`.
    RemoveLock { auction: AuctionId, account: AccountId },
    /// Pay `amount` from `from` to `to`, without closing the account of
    /// `from`.
    TransferCurrency { from: AccountId, to: AccountId, amount: Balance },
}

/// Whether the token behind `entry` can be given back to `owner`, free to
/// move: class and token have to exist, and the token has to be `owner`'s.
pub open spec fn release_check(owner: AccountId, entry: TokenEntry) -> Result<(), Error> {
    holder_check(owner, entry.with_lock(false))
}

/// What giving the token back to `owner` asks of the registry: the lock flag
/// is flipped where it is set.
pub open spec fn release_effects(owner: AccountId, token: Token, entry: TokenEntry) -> Seq<
    Effect,
> {
    if entry.locked() {
        seq![Effect::ToggleLock { account: owner, token }]
    } else {
        Seq::empty()
    }
}

/// What putting the bid of `bidder` in front asks of the ledger: the lock of
/// the bid that led so far is let go, and `value` is held with `bidder`.
pub open spec fn bid_effects(
    auction: AuctionId,
    last_bid: Option<(AccountId, Balance)>,
    bidder: AccountId,
    value: Balance,
) -> Seq<Effect> {
    let hold = Effect::SetLock { auction, account: bidder, amount: value };
    match last_bid {
        Some((leader, _)) => seq![Effect::RemoveLock { auction, account: leader }, hold],
        None => seq![hold],
    }
}

/// How one auction ended.
#[derive(Clone, Copy, Debug, PartialEq, Eq)]
pub struct Settlement {
    /// The auction.
    pub id: AuctionId,
    /// The account that had put the token up.
    pub owner: AccountId,
    /// The token.
    pub token_id: Token,
    /// The bid that led at the end.
    pub last_bid: Option<(AccountId, Balance)>,
    /// Whether the token was locked when the auction ended.
    pub locked: bool,
    /// Why the token could not be given back or handed on. Where this is set,
    /// nothing moves: the funds of the bidder are let go and that is all.
    pub failure: Option<Error>,
}

/// How the auction `id` ends, given what the registry holds for its token.
pub open spec fn settlement_of(
    id: AuctionId,
    owner: AccountId,
    token_id: Token,
    last_bid: Option<(AccountId, Balance)>,
    entry: TokenEntry,
) -> Settlement {
    Settlement {
        id,
        owner,
        token_id,
        last_bid,
        locked: entry.locked(),
        failure: match release_check(owner, entry) {
            Ok(()) => None,
            Err(e) => Some(e),
        },
    }
}

impl Settlement {
    /// What the end of the auction asks of the host.
    ///
    /// Where the token can be given back, it is unlocked; where there is a
    /// winner as well, the token is handed to the winner, the winner's funds
    /// are let go and the winning bid is paid to the owner. Where the token
    /// cannot be given back, a winner's funds are let go and nothing else
    /// happens.
    pub open spec fn spec_effects(self) -> Seq<Effect> {
        let unlock = if self.locked {
            seq![Effect::ToggleLock { account: self.owner, token: self.token_id }]
        } else {
            Seq::empty()
        };
        match (self.failure, self.last_bid) {
            (None, None) => unlock,
            (None, Some((winner, amount))) => unlock + seq![
                Effect::TransferToken { from: self.owner, to: winner, token: self.token_id },
                Effect::RemoveLock { auction: self.id, account: winner },
                Effect::TransferCurrency { from: winner, to: self.owner, amount },
            ],
            (Some(_), None) => Seq::empty(),
            (Some(_), Some((winner, _))) => seq![
                Effect::RemoveLock { auction: self.id, account: winner },
            ],
        }
    }

    /// What the end of the auction asks of the host, in the order in which it
    /// is to be done.
    pub fn effects(&self) -> (list: Vec<Effect>)
        ensures
            list@ == self.spec_effects(),
    {
        let mut list: Vec<Effect> = Vec::new();
        match self.failure {
            None => {
                if self.locked {
                    list.push(Effect::ToggleLock { account: self.owner, token: self.token_id });
                }
                match self.last_bid {
                    Some((winner, amount)) => {
                        list.push(
                            Effect::TransferToken {
                                from: self.owner,
                                to: winner,
                                token: self.token_id,
                            },
                        );
                        list.push(Effect::RemoveLock { auction: self.id, account: winner });
                        list.push(
                            Effect::TransferCurrency { from: winner, to: self.owner, amount },
                        );
                    },
                    None => {},
                }
            },
            Some(_) => {
                match self.last_bid {
                    Some((winner, _)) => {
                        list.push(Effect::RemoveLock { auction: self.id, account: winner });
                    },
                    None => {},
                }
            },
        }
        assert(list@ =~= self.spec_effects());
        list
    }
}

} // verus!
