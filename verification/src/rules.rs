//! The rules of an auction, as statements about values: when a call goes
//! through, and what the auction table holds afterwards.

use vstd::prelude::*;
use crate::primitives::{AccountId, AuctionId, Balance, BlockNumber};
use crate::arith::{BID_ADD_BLOCKS, MIN_AUCTION_DUR, next_minimal_bid};
use crate::traits::{AuctionInfoView, AuctionType, AuctionView};
use crate::store::{StoreView, lemma_indexed, lemma_unindexed};
use crate::nft::{TokenEntry, toggle_lock_check};
use crate::error::Error;
use crate::dispatch::DispatchError;
use crate::effects::{
    Effect, Settlement, bid_effects, release_check, release_effects, settlement_of,
};

verus! {

/// Whether a call went through, whatever it handed back.
pub open spec fn verdict<T>(r: Result<T, DispatchError>) -> Result<(), DispatchError> {
    match r {
        Ok(_) => Ok(()),
        Err(e) => Err(e),
    }
}

/// A refusal by the auction rules.
pub open spec fn refused(e: Error) -> Result<(), DispatchError> {
    Err(DispatchError::Auction(e))
}

/// An auction as it is kept when `caller` opens it: it is the caller's, and
/// nobody has bid.
pub open spec fn opened(info: AuctionInfoView, caller: AccountId) -> AuctionInfoView {
    AuctionInfoView { owner: caller, last_bid: None, ..info }
}

/// Whether `caller` may open the auction `info` at height `now`, given what
/// the registry holds for the token. The first rule that is broken decides.
pub open spec fn new_auction_check(
    now: BlockNumber,
    caller: AccountId,
    info: AuctionInfoView,
    entry: TokenEntry,
) -> Result<(), DispatchError> {
    if info.start < now {
        refused(Error::AuctionStartTimeAlreadyPassed)
    } else if info.end <= info.start + MIN_AUCTION_DUR {
        refused(Error::InvalidTimeConfiguration)
    } else if info.name.len() == 0 {
        refused(Error::EmptyAuctionName)
    } else if !entry.owned_by(caller) {
        refused(Error::NotATokenOwner)
    } else if entry.locked() {
        refused(Error::TokenLocked)
    } else {
        Ok(())
    }
}

/// Whether `value` beats the bid that leads. The first bid has to be
/// something.
pub open spec fn outbids(last_bid: Option<(AccountId, Balance)>, value: Balance) -> bool {
    match last_bid {
        Some((_, leading)) => value > leading,
        None => value != 0,
    }
}

/// Whether a bid at `now` comes so late that the auction is prolonged.
pub open spec fn is_late(end: BlockNumber, now: BlockNumber) -> bool {
    end - now < BID_ADD_BLOCKS
}

/// The end of an auction after a bid at `now`.
pub open spec fn end_after_bid(end: BlockNumber, now: BlockNumber) -> int {
    if is_late(end, now) {
        now + BID_ADD_BLOCKS
    } else {
        end as int
    }
}

/// Whether `bidder` may bid `value` in `auction` at height `now`. The first
/// rule that is broken decides.
pub open spec fn bid_check(
    auction: AuctionInfoView,
    now: BlockNumber,
    bidder: AccountId,
    value: Balance,
) -> Result<(), Error> {
    if bidder == auction.owner {
        Err(Error::BidOnOwnAuction)
    } else if now <= auction.start {
        Err(Error::AuctionNotStarted)
    } else if now >= auction.end {
        Err(Error::AuctionAlreadyConcluded)
    } else if value < auction.minimal_bid {
        Err(Error::InvalidBidPrice)
    } else if !outbids(auction.last_bid, value) {
        Err(Error::InvalidBidPrice)
    } else if next_minimal_bid(value as int) > Balance::MAX {
        Err(Error::BidOverflow)
    } else if end_after_bid(auction.end, now) > BlockNumber::MAX {
        Err(Error::TimeOverflow)
    } else {
        Ok(())
    }
}

/// An auction after `bidder` has bid `value` in it at height `now`.
pub open spec fn after_bid(
    auction: AuctionInfoView,
    now: BlockNumber,
    bidder: AccountId,
    value: Balance,
) -> AuctionInfoView {
    AuctionInfoView {
        last_bid: Some((bidder, value)),
        minimal_bid: next_minimal_bid(value as int) as Balance,
        end: end_after_bid(auction.end, now) as BlockNumber,
        ..auction
    }
}

impl StoreView {
    /// What the table keeps to once the rules run it: every auction has a
    /// number that was handed out, and the index holds each auction under its
    /// end, once, and nothing else.
    pub open spec fn consistent(self) -> bool {
        &&& self.wf()
        &&& forall|id: AuctionId| #[trigger]
            self.auctions.contains_key(id) ==> id < self.next_id && self.due(
                self.auctions[id].info.end,
            ).contains(id)
        &&& forall|height: BlockNumber, id: AuctionId| #[trigger]
            self.due(height).contains(id) ==> self.auctions.contains_key(id)
                && self.auctions[id].info.end == height
    }

    /// Whether there is an auction of kind `kind` under `id`.
    pub open spec fn of_kind(self, kind: AuctionType, id: AuctionId) -> bool {
        self.auctions.contains_key(id) && self.auctions[id].kind == kind
    }

    /// The table with `id` indexed under `to` in place of `from`.
    pub open spec fn moved(self, id: AuctionId, from: BlockNumber, to: BlockNumber) -> StoreView {
        if from == to {
            self
        } else {
            self.unindexed(from, id).indexed(to, id)
        }
    }

    /// The table after `caller` has opened the auction `info`.
    pub open spec fn created(
        self,
        kind: AuctionType,
        caller: AccountId,
        info: AuctionInfoView,
    ) -> StoreView {
        self.advanced().with_auction(
            self.next_id,
            AuctionView { kind, info: opened(info, caller) },
        ).indexed(info.end, self.next_id)
    }

    /// The table after `bidder` has bid `value` in the auction `id`.
    pub open spec fn bid_placed(
        self,
        id: AuctionId,
        now: BlockNumber,
        bidder: AccountId,
        value: Balance,
    ) -> StoreView {
        let before = self.auctions[id];
        let after = after_bid(before.info, now, bidder, value);
        self.with_auction(id, AuctionView { kind: before.kind, info: after }).moved(
            id,
            before.info.end,
            after.end,
        )
    }

    /// The table after the auction `id` was withdrawn.
    pub open spec fn cancelled(self, id: AuctionId) -> StoreView {
        self.without_auction(id).unindexed(self.auctions[id].info.end, id)
    }

    /// The table after `info` was put in place of the auction `id`.
    pub open spec fn updated(self, id: AuctionId, info: AuctionInfoView) -> StoreView {
        let before = self.auctions[id];
        self.with_auction(id, AuctionView { kind: before.kind, info }).moved(
            id,
            before.info.end,
            info.end,
        )
    }

    /// The table after every auction due at `now` was settled.
    pub open spec fn concluded(self, now: BlockNumber) -> StoreView {
        StoreView {
            auctions: self.auctions.remove_keys(self.due(now).to_set()),
            ends: self.ends.remove(now),
            ..self
        }
    }
}

/// Whether opening an auction goes through: the auction has to pass, a number
/// has to be left, and the registry has to let the caller lock the token.
pub open spec fn create_outcome(
    store: StoreView,
    now: BlockNumber,
    caller: AccountId,
    info: AuctionInfoView,
    entry: TokenEntry,
) -> Result<(), DispatchError> {
    match new_auction_check(now, caller, info, entry) {
        Err(e) => Err(e),
        Ok(()) => if store.next_id == AuctionId::MAX {
            refused(Error::NoAvailableAuctionId)
        } else {
            match toggle_lock_check(caller, entry) {
                Err(e) => Err(DispatchError::Nft(e)),
                Ok(()) => Ok(()),
            }
        },
    }
}

/// Whether a bid goes through: there has to be such an auction, and the bid
/// has to pass.
pub open spec fn bid_outcome(
    store: StoreView,
    kind: AuctionType,
    now: BlockNumber,
    bidder: AccountId,
    id: AuctionId,
    value: Balance,
) -> Result<(), DispatchError> {
    if !store.of_kind(kind, id) {
        refused(Error::AuctionNotExist)
    } else {
        match bid_check(store.auctions[id].info, now, bidder, value) {
            Err(e) => refused(e),
            Ok(()) => Ok(()),
        }
    }
}

/// Whether an auction can be withdrawn: there has to be such an auction, it
/// must not have started, and the registry has to give the token back.
pub open spec fn cancel_outcome(
    store: StoreView,
    kind: AuctionType,
    now: BlockNumber,
    id: AuctionId,
    entry: TokenEntry,
) -> Result<(), DispatchError> {
    if !store.of_kind(kind, id) {
        refused(Error::AuctionNotExist)
    } else if now >= store.auctions[id].info.start {
        refused(Error::AuctionAlreadyStarted)
    } else {
        match release_check(store.auctions[id].info.owner, entry) {
            Err(e) => Err(DispatchError::Nft(e)),
            Ok(()) => Ok(()),
        }
    }
}

/// Whether an auction can be replaced: there has to be such an auction.
pub open spec fn update_outcome(store: StoreView, kind: AuctionType, id: AuctionId) -> Result<
    (),
    DispatchError,
> {
    if !store.of_kind(kind, id) {
        refused(Error::AuctionNotExist)
    } else {
        Ok(())
    }
}

/// What a call to open an auction comes to.
///
/// It goes through exactly where [`create_outcome`] says so. Then the number
/// handed back is the next one, the table holds the auction under it, as the
/// caller's and without a bid, and the one thing left to do is to lock the
/// token. A call that is refused changes nothing.
pub open spec fn creates(
    before: StoreView,
    after: StoreView,
    kind: AuctionType,
    now: BlockNumber,
    caller: AccountId,
    info: AuctionInfoView,
    entry: TokenEntry,
    r: Result<(AuctionId, Vec<Effect>), DispatchError>,
) -> bool {
    &&& verdict(r) == create_outcome(before, now, caller, info, entry)
    &&& match r {
        Ok((id, effects)) => {
            &&& id == before.next_id
            &&& after == before.created(kind, caller, info)
            &&& effects@ == seq![Effect::ToggleLock { account: caller, token: info.token_id }]
        },
        Err(_) => after == before,
    }
}

/// What a bid comes to.
///
/// It goes through exactly where [`bid_outcome`] says so. Then the bid leads
/// in the table, and what is left to do is to let go of the lock of the bid
/// that led and to hold the new bid. A call that is refused changes nothing.
pub open spec fn bids(
    before: StoreView,
    after: StoreView,
    kind: AuctionType,
    now: BlockNumber,
    bidder: AccountId,
    id: AuctionId,
    value: Balance,
    r: Result<Vec<Effect>, DispatchError>,
) -> bool {
    &&& verdict(r) == bid_outcome(before, kind, now, bidder, id, value)
    &&& match r {
        Ok(effects) => {
            &&& after == before.bid_placed(id, now, bidder, value)
            &&& effects@ == bid_effects(id, before.auctions[id].info.last_bid, bidder, value)
        },
        Err(_) => after == before,
    }
}

/// What a call to withdraw an auction comes to.
///
/// It goes through exactly where [`cancel_outcome`] says so. Then the auction
/// is gone from the table and the index, and what is left to do is to unlock
/// the token. A call that is refused changes nothing.
pub open spec fn withdraws(
    before: StoreView,
    after: StoreView,
    kind: AuctionType,
    now: BlockNumber,
    id: AuctionId,
    entry: TokenEntry,
    r: Result<Vec<Effect>, DispatchError>,
) -> bool {
    &&& verdict(r) == cancel_outcome(before, kind, now, id, entry)
    &&& match r {
        Ok(effects) => {
            &&& after == before.cancelled(id)
            &&& effects@ == release_effects(
                before.auctions[id].info.owner,
                before.auctions[id].info.token_id,
                entry,
            )
        },
        Err(_) => after == before,
    }
}

/// What a call to replace an auction comes to.
///
/// It goes through exactly where there is such an auction, and then the table
/// holds `info` in its place, indexed under its end. A call that is refused
/// changes nothing.
pub open spec fn replaces(
    before: StoreView,
    after: StoreView,
    kind: AuctionType,
    id: AuctionId,
    info: AuctionInfoView,
    r: Result<(), DispatchError>,
) -> bool {
    &&& r == update_outcome(before, kind, id)
    &&& match r {
        Ok(()) => after == before.updated(id, info),
        Err(_) => after == before,
    }
}

/// What settling a height comes to: every auction due at it is gone from the
/// table and the index, and handed back is how each of them ended.
pub open spec fn settles(
    before: StoreView,
    after: StoreView,
    now: BlockNumber,
    entries: Seq<TokenEntry>,
    done: Seq<Settlement>,
) -> bool {
    &&& after == before.concluded(now)
    &&& done == settlements(before, now, entries)
}

/// What the registry holds for the `i`-th auction that is due: the `i`-th of
/// the entries handed in, and nothing where fewer were handed in.
pub open spec fn entry_at(entries: Seq<TokenEntry>, i: int) -> TokenEntry {
    if 0 <= i < entries.len() {
        entries[i]
    } else {
        TokenEntry::absent()
    }
}

/// How the auctions due at `now` end, one after the other in the order of the
/// index, given what the registry holds for the token of each.
pub open spec fn settlements(store: StoreView, now: BlockNumber, entries: Seq<TokenEntry>) -> Seq<
    Settlement,
> {
    Seq::new(
        store.due(now).len(),
        |i: int|
            {
                let id = store.due(now)[i];
                let info = store.auctions[id].info;
                settlement_of(id, info.owner, info.token_id, info.last_bid, entry_at(entries, i))
            },
    )
}

/// Moving a number in the index takes it from one height to another and
/// leaves the rest of the index as it was.
pub proof fn lemma_moved(store: StoreView, id: AuctionId, from: BlockNumber, to: BlockNumber)
    requires
        store.wf(),
    ensures
        store.moved(id, from, to).wf(),
        store.moved(id, from, to).auctions == store.auctions,
        store.moved(id, from, to).next_id == store.next_id,
        forall|h: BlockNumber, other: AuctionId| #[trigger]
            store.moved(id, from, to).due(h).contains(other) <==> if other == id && from != to {
                h == to || (h != from && store.due(h).contains(other))
            } else {
                store.due(h).contains(other)
            },
{
    if from != to {
        lemma_unindexed(store, from, id);
        lemma_indexed(store.unindexed(from, id), to, id);
    }
}

/// Opening an auction keeps the table consistent.
pub proof fn lemma_created_consistent(
    store: StoreView,
    kind: AuctionType,
    caller: AccountId,
    info: AuctionInfoView,
)
    requires
        store.consistent(),
        store.next_id < AuctionId::MAX,
    ensures
        store.created(kind, caller, info).consistent(),
{
    let id = store.next_id;
    let filled = store.advanced().with_auction(id, AuctionView { kind, info: opened(info, caller) });
    assert forall|h: BlockNumber| #[trigger] filled.due(h) == store.due(h) by {}
    lemma_indexed(filled, info.end, id);
    let after = store.created(kind, caller, info);
    assert forall|other: AuctionId| #[trigger] after.auctions.contains_key(other) implies other
        < after.next_id && after.due(after.auctions[other].info.end).contains(other) by {
        if other != id {
            assert(store.auctions.contains_key(other));
            assert(filled.due(store.auctions[other].info.end).contains(other));
        }
    }
    assert forall|h: BlockNumber, other: AuctionId| #[trigger]
        after.due(h).contains(other) implies after.auctions.contains_key(other)
        && after.auctions[other].info.end == h by {
        if !(h == info.end && other == id) {
            assert(filled.due(h).contains(other));
            assert(store.due(h).contains(other));
        }
    }
}

/// Putting another auction in the place of one, and moving its number in the
/// index to the new end, keeps the table consistent.
pub proof fn lemma_replaced_consistent(store: StoreView, id: AuctionId, auction: AuctionView)
    requires
        store.consistent(),
        store.auctions.contains_key(id),
    ensures
        store.with_auction(id, auction).moved(
            id,
            store.auctions[id].info.end,
            auction.info.end,
        ).consistent(),
{
    let from = store.auctions[id].info.end;
    let to = auction.info.end;
    let filled = store.with_auction(id, auction);
    assert forall|h: BlockNumber| #[trigger] filled.due(h) == store.due(h) by {}
    lemma_moved(filled, id, from, to);
    let after = filled.moved(id, from, to);
    assert forall|other: AuctionId| #[trigger] after.auctions.contains_key(other) implies other
        < after.next_id && after.due(after.auctions[other].info.end).contains(other) by {
        assert(store.auctions.contains_key(other));
        if other != id {
            assert(filled.due(store.auctions[other].info.end).contains(other));
        } else {
            assert(filled.due(from).contains(id));
        }
    }
    assert forall|h: BlockNumber, other: AuctionId| #[trigger]
        after.due(h).contains(other) implies after.auctions.contains_key(other)
        && after.auctions[other].info.end == h by {
        if other == id && from != to {
            if h != to {
                assert(filled.due(h).contains(other));
                assert(store.due(h).contains(other));
            }
        } else {
            assert(filled.due(h).contains(other));
            assert(store.due(h).contains(other));
        }
    }
}

/// Withdrawing an auction keeps the table consistent.
pub proof fn lemma_cancelled_consistent(store: StoreView, id: AuctionId)
    requires
        store.consistent(),
        store.auctions.contains_key(id),
    ensures
        store.cancelled(id).consistent(),
{
    let end = store.auctions[id].info.end;
    let emptied = store.without_auction(id);
    assert forall|h: BlockNumber| #[trigger] emptied.due(h) == store.due(h) by {}
    lemma_unindexed(emptied, end, id);
    let after = store.cancelled(id);
    assert forall|other: AuctionId| #[trigger] after.auctions.contains_key(other) implies other
        < after.next_id && after.due(after.auctions[other].info.end).contains(other) by {
        assert(store.auctions.contains_key(other));
        assert(emptied.due(store.auctions[other].info.end).contains(other));
    }
    assert forall|h: BlockNumber, other: AuctionId| #[trigger]
        after.due(h).contains(other) implies after.auctions.contains_key(other)
        && after.auctions[other].info.end == h by {
        assert(emptied.due(h).contains(other));
        assert(store.due(h).contains(other));
    }
}

/// Settling a height keeps the table consistent, and leaves nothing due at
/// that height.
pub proof fn lemma_concluded_consistent(store: StoreView, now: BlockNumber)
    requires
        store.consistent(),
    ensures
        store.concluded(now).consistent(),
        store.concluded(now).due(now) == Seq::<AuctionId>::empty(),
        forall|id: AuctionId| #[trigger]
            store.concluded(now).auctions.contains_key(id) <==> store.auctions.contains_key(id)
                && store.auctions[id].info.end != now,
{
    let after = store.concluded(now);
    assert forall|h: BlockNumber| h != now implies #[trigger] after.due(h) == store.due(h) by {}
    assert forall|id: AuctionId| #[trigger]
        after.auctions.contains_key(id) <==> store.auctions.contains_key(id)
            && store.auctions[id].info.end != now by {
        if store.auctions.contains_key(id) {
            if store.auctions[id].info.end == now {
                assert(store.due(now).contains(id));
            } else if store.due(now).contains(id) {
                assert(false);
            }
        }
    }
    assert forall|h: BlockNumber, other: AuctionId| #[trigger]
        after.due(h).contains(other) implies after.auctions.contains_key(other)
        && after.auctions[other].info.end == h by {
        assert(h != now);
        assert(store.due(h).contains(other));
    }
    assert forall|other: AuctionId| #[trigger] after.auctions.contains_key(other) implies other
        < after.next_id && after.due(after.auctions[other].info.end).contains(other) by {
        assert(store.auctions.contains_key(other));
        assert(store.due(store.auctions[other].info.end).contains(other));
    }
}

} // verus!
