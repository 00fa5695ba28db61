//! What an auction is made of.

use vstd::prelude::*;
use crate::primitives::{AccountId, AuctionId, Balance, BlockNumber, Token};
use crate::nft::TokenEntry;
use crate::dispatch::DispatchError;
use crate::effects::{Effect, Settlement};
use crate::store::StoreView;
use crate::rules::{bids, creates, new_auction_check, replaces, settles, withdraws};

verus! {

/// The kinds of auction. They share one table and one set of rules; the kind
/// says under which name an auction is found again.
#[derive(Clone, Copy, Debug, PartialEq, Eq, Structural)]
pub enum AuctionType {
    English,
    Candle,
    TopUp,
}

/// One auction, as its creator hands it in and as the table keeps it.
#[derive(Debug, PartialEq, Eq)]
pub struct AuctionInfo {
    /// A label for display.
    pub name: Vec<u8>,
    /// The bid that leads: who made it, and how much it is.
    pub last_bid: Option<(AccountId, Balance)>,
    /// Bids are taken after this height.
    pub start: BlockNumber,
    /// Bids are taken before this height, at which the auction is settled.
    pub end: BlockNumber,
    /// The account that put the token up.
    pub owner: AccountId,
    /// The token that is put up.
    pub token_id: Token,
    /// The least amount that the next bid has to reach.
    pub minimal_bid: Balance,
}

/// An English auction: the price only rises, and the last bid wins.
pub type EnglishAuctionInfo = AuctionInfo;

/// A candle auction.
pub type CandleAuctionInfo = AuctionInfo;

/// A top-up auction.
pub type TopUpAuctionInfo = AuctionInfo;

/// An auction as a value: its name is a sequence of bytes.
pub struct AuctionInfoView {
    pub name: Seq<u8>,
    pub last_bid: Option<(AccountId, Balance)>,
    pub start: BlockNumber,
    pub end: BlockNumber,
    pub owner: AccountId,
    pub token_id: Token,
    pub minimal_bid: Balance,
}

impl View for AuctionInfo {
    type V = AuctionInfoView;

    open spec fn view(&self) -> AuctionInfoView {
        AuctionInfoView {
            name: self.name@,
            last_bid: self.last_bid,
            start: self.start,
            end: self.end,
            owner: self.owner,
            token_id: self.token_id,
            minimal_bid: self.minimal_bid,
        }
    }
}

impl Clone for AuctionInfo {
    fn clone(&self) -> (copy: Self)
        ensures
            copy@ == self@,
    {
        AuctionInfo {
            name: self.name.clone(),
            last_bid: self.last_bid,
            start: self.start,
            end: self.end,
            owner: self.owner,
            token_id: self.token_id,
            minimal_bid: self.minimal_bid,
        }
    }
}

/// An auction in the table: its kind, and what it is made of.
#[derive(Debug, PartialEq, Eq)]
pub struct Auction {
    pub kind: AuctionType,
    pub info: AuctionInfo,
}

/// An auction in the table, as a value.
pub struct AuctionView {
    pub kind: AuctionType,
    pub info: AuctionInfoView,
}

impl View for Auction {
    type V = AuctionView;

    open spec fn view(&self) -> AuctionView {
        AuctionView { kind: self.kind, info: self.info@ }
    }
}

impl Clone for Auction {
    fn clone(&self) -> (copy: Self)
        ensures
            copy@ == self@,
    {
        Auction { kind: self.kind, info: self.info.clone() }
    }
}

/// A house that holds English auctions.
pub trait EnglishAuction {
    /// The auction table of the house.
    spec fn table(&self) -> StoreView;

    /// What the house keeps to between calls.
    spec fn inv(&self) -> bool;

    /// Opens an English auction for `caller` and hands back its number, and
    /// what is left to do.
    fn new_auction(
        &mut self,
        now: BlockNumber,
        caller: AccountId,
        info: EnglishAuctionInfo,
        entry: &TokenEntry,
    ) -> (r: Result<(AuctionId, Vec<Effect>), DispatchError>)
        requires
            old(self).inv(),
        ensures
            final(self).inv(),
            creates(
                old(self).table(),
                final(self).table(),
                AuctionType::English,
                now,
                caller,
                info@,
                *entry,
                r,
            ),
    ;

    /// Puts `info` in the place of the English auction `id`.
    fn update_auction(&mut self, id: AuctionId, info: EnglishAuctionInfo) -> (r: Result<
        (),
        DispatchError,
    >)
        requires
            old(self).inv(),
        ensures
            final(self).inv(),
            replaces(old(self).table(), final(self).table(), AuctionType::English, id, info@, r),
    ;

    /// Withdraws the English auction `id`, and hands back what is left to do.
    fn remove_auction(&mut self, now: BlockNumber, id: AuctionId, entry: &TokenEntry) -> (r:
        Result<Vec<Effect>, DispatchError>)
        requires
            old(self).inv(),
        ensures
            final(self).inv(),
            withdraws(
                old(self).table(),
                final(self).table(),
                AuctionType::English,
                now,
                id,
                *entry,
                r,
            ),
    ;

    /// Bids `value` for `bidder` in the English auction `id`, and hands back
    /// what is left to do.
    fn bid(&mut self, now: BlockNumber, bidder: AccountId, id: AuctionId, value: Balance) -> (r:
        Result<Vec<Effect>, DispatchError>)
        requires
            old(self).inv(),
        ensures
            final(self).inv(),
            bids(
                old(self).table(),
                final(self).table(),
                AuctionType::English,
                now,
                bidder,
                id,
                value,
                r,
            ),
    ;

    /// Settles what is due at `now`, and hands back how each auction ended.
    /// The kinds share one index, so this settles every auction that is due,
    /// of whatever kind.
    fn conclude_auction(&mut self, now: BlockNumber, entries: &Vec<TokenEntry>) -> (done: Vec<
        Settlement,
    >)
        requires
            old(self).inv(),
        ensures
            final(self).inv(),
            settles(old(self).table(), final(self).table(), now, entries@, done@),
    ;

    /// Whether `caller` may open the English auction `info` at height `now`.
    fn check_new_auction(
        now: BlockNumber,
        caller: AccountId,
        info: &EnglishAuctionInfo,
        entry: &TokenEntry,
    ) -> (r: Result<(), DispatchError>)
        ensures
            r == new_auction_check(now, caller, info@, *entry),
    ;
}

/// A house that holds candle auctions.
pub trait CandleAuction {
    /// The auction table of the house.
    spec fn table(&self) -> StoreView;

    /// What the house keeps to between calls.
    spec fn inv(&self) -> bool;

    /// Opens a candle auction for `caller` and hands back its number, and
    /// what is left to do.
    fn new_auction(
        &mut self,
        now: BlockNumber,
        caller: AccountId,
        info: CandleAuctionInfo,
        entry: &TokenEntry,
    ) -> (r: Result<(AuctionId, Vec<Effect>), DispatchError>)
        requires
            old(self).inv(),
        ensures
            final(self).inv(),
            creates(
                old(self).table(),
                final(self).table(),
                AuctionType::Candle,
                now,
                caller,
                info@,
                *entry,
                r,
            ),
    ;

    /// Puts `info` in the place of the candle auction `id`.
    fn update_auction(&mut self, id: AuctionId, info: CandleAuctionInfo) -> (r: Result<
        (),
        DispatchError,
    >)
        requires
            old(self).inv(),
        ensures
            final(self).inv(),
            replaces(old(self).table(), final(self).table(), AuctionType::Candle, id, info@, r),
    ;

    /// Withdraws the candle auction `id`, and hands back what is left to do.
    fn remove_auction(&mut self, now: BlockNumber, id: AuctionId, entry: &TokenEntry) -> (r:
        Result<Vec<Effect>, DispatchError>)
        requires
            old(self).inv(),
        ensures
            final(self).inv(),
            withdraws(
                old(self).table(),
                final(self).table(),
                AuctionType::Candle,
                now,
                id,
                *entry,
                r,
            ),
    ;

    /// Bids `value` for `bidder` in the candle auction `id`, and hands back
    /// what is left to do.
    fn bid(&mut self, now: BlockNumber, bidder: AccountId, id: AuctionId, value: Balance) -> (r:
        Result<Vec<Effect>, DispatchError>)
        requires
            old(self).inv(),
        ensures
            final(self).inv(),
            bids(
                old(self).table(),
                final(self).table(),
                AuctionType::Candle,
                now,
                bidder,
                id,
                value,
                r,
            ),
    ;

    /// Settles what is due at `now`, and hands back how each auction ended.
    /// The kinds share one index, so this settles every auction that is due,
    /// of whatever kind.
    fn conclude_auction(&mut self, now: BlockNumber, entries: &Vec<TokenEntry>) -> (done: Vec<
        Settlement,
    >)
        requires
            old(self).inv(),
        ensures
            final(self).inv(),
            settles(old(self).table(), final(self).table(), now, entries@, done@),
    ;

    /// Whether `caller` may open the candle auction `info` at height `now`.
    fn check_new_auction(
        now: BlockNumber,
        caller: AccountId,
        info: &CandleAuctionInfo,
        entry: &TokenEntry,
    ) -> (r: Result<(), DispatchError>)
        ensures
            r == new_auction_check(now, caller, info@, *entry),
    ;
}

/// A house that holds top-up auctions.
pub trait TopUpAuction {
    /// The auction table of the house.
    spec fn table(&self) -> StoreView;

    /// What the house keeps to between calls.
    spec fn inv(&self) -> bool;

    /// Opens a top-up auction for `caller` and hands back its number, and
    /// what is left to do.
    fn new_auction(
        &mut self,
        now: BlockNumber,
        caller: AccountId,
        info: TopUpAuctionInfo,
        entry: &TokenEntry,
    ) -> (r: Result<(AuctionId, Vec<Effect>), DispatchError>)
        requires
            old(self).inv(),
        ensures
            final(self).inv(),
            creates(
                old(self).table(),
                final(self).table(),
                AuctionType::TopUp,
                now,
                caller,
                info@,
                *entry,
                r,
            ),
    ;

    /// Puts `info` in the place of the top-up auction `id`.
    fn update_auction(&mut self, id: AuctionId, info: TopUpAuctionInfo) -> (r: Result<
        (),
        DispatchError,
    >)
        requires
            old(self).inv(),
        ensures
            final(self).inv(),
            replaces(old(self).table(), final(self).table(), AuctionType::TopUp, id, info@, r),
    ;

    /// Withdraws the top-up auction `id`, and hands back what is left to do.
    fn remove_auction(&mut self, now: BlockNumber, id: AuctionId, entry: &TokenEntry) -> (r:
        Result<Vec<Effect>, DispatchError>)
        requires
            old(self).inv(),
        ensures
            final(self).inv(),
            withdraws(
                old(self).table(),
                final(self).table(),
                AuctionType::TopUp,
                now,
                id,
                *entry,
                r,
            ),
    ;

    /// Bids `value` for `bidder` in the top-up auction `id`, and hands back
    /// what is left to do.
    fn bid(&mut self, now: BlockNumber, bidder: AccountId, id: AuctionId, value: Balance) -> (r:
        Result<Vec<Effect>, DispatchError>)
        requires
            old(self).inv(),
        ensures
            final(self).inv(),
            bids(
                old(self).table(),
                final(self).table(),
                AuctionType::TopUp,
                now,
                bidder,
                id,
                value,
                r,
            ),
    ;

    /// Settles what is due at `now`, and hands back how each auction ended.
    /// The kinds share one index, so this settles every auction that is due,
    /// of whatever kind.
    fn conclude_auction(&mut self, now: BlockNumber, entries: &Vec<TokenEntry>) -> (done: Vec<
        Settlement,
    >)
        requires
            old(self).inv(),
        ensures
            final(self).inv(),
            settles(old(self).table(), final(self).table(), now, entries@, done@),
    ;

    /// Whether `caller` may open the top-up auction `info` at height `now`.
    fn check_new_auction(
        now: BlockNumber,
        caller: AccountId,
        info: &TopUpAuctionInfo,
        entry: &TokenEntry,
    ) -> (r: Result<(), DispatchError>)
        ensures
            r == new_auction_check(now, caller, info@, *entry),
    ;
}

} // verus!
