//! What holds of the auction house whatever is asked of it.

use vstd::prelude::*;
use crate::primitives::{AccountId, AuctionId, Balance, BlockNumber};
use crate::arith::{BID_ADD_BLOCKS, BID_STEP_PERC, ceil_percent, next_minimal_bid};
use crate::traits::{AuctionInfoView, AuctionType};
use crate::store::{StoreView, lemma_indexed, lemma_unindexed};
use crate::nft::TokenEntry;
use crate::error::{Error, ErrorKind, kind_of};
use crate::rules::{
    after_bid, bid_check, bid_outcome, cancel_outcome, is_late, refused, settlements,
    lemma_concluded_consistent, lemma_moved, lemma_replaced_consistent,
};

verus! {

/// The step above a bid is at least one unit, so the least amount for the
/// next bid lies above the bid.
pub proof fn lemma_step_is_positive(value: Balance)
    requires
        value > 0,
    ensures
        ceil_percent(value as int, BID_STEP_PERC as int) >= 1,
        next_minimal_bid(value as int) > value,
{
}

/// Bids rise. A bid that goes through is above the bid that led before it,
/// and the least amount asked of the next bid is above the bid itself.
pub proof fn lemma_bids_rise(
    auction: AuctionInfoView,
    now: BlockNumber,
    bidder: AccountId,
    value: Balance,
)
    requires
        bid_check(auction, now, bidder, value) is Ok,
    ensures
        value > 0,
        value >= auction.minimal_bid,
        auction.last_bid matches Some((_, leading)) ==> value > leading,
        after_bid(auction, now, bidder, value).last_bid == Some((bidder, value)),
        after_bid(auction, now, bidder, value).minimal_bid > value,
{
    match auction.last_bid {
        Some((_, leading)) => {
            assert(value > leading);
        },
        None => {},
    }
    lemma_step_is_positive(value);
}

/// Of two bids that go through one after the other in one auction, the second
/// is above the first.
pub proof fn lemma_successive_bids_rise(
    auction: AuctionInfoView,
    first_at: BlockNumber,
    first_bidder: AccountId,
    first: Balance,
    second_at: BlockNumber,
    second_bidder: AccountId,
    second: Balance,
)
    requires
        bid_check(auction, first_at, first_bidder, first) is Ok,
        bid_check(
            after_bid(auction, first_at, first_bidder, first),
            second_at,
            second_bidder,
            second,
        ) is Ok,
    ensures
        second > first,
        second >= next_minimal_bid(first as int),
{
    lemma_bids_rise(auction, first_at, first_bidder, first);
}

/// The end of an auction never moves back. A bid leaves it where it is, or,
/// coming late, puts it a full guard span past the bid.
pub proof fn lemma_end_never_moves_back(
    auction: AuctionInfoView,
    now: BlockNumber,
    bidder: AccountId,
    value: Balance,
)
    requires
        bid_check(auction, now, bidder, value) is Ok,
    ensures
        after_bid(auction, now, bidder, value).end >= auction.end,
        is_late(auction.end, now) ==> after_bid(auction, now, bidder, value).end == now
            + BID_ADD_BLOCKS,
        !is_late(auction.end, now) ==> after_bid(auction, now, bidder, value).end == auction.end,
        after_bid(auction, now, bidder, value).end - now >= BID_ADD_BLOCKS,
{
}

/// A late bid moves the auction in the index. After it, the auction is
/// indexed under its new end, a guard span past the bid, and under no other
/// height.
pub proof fn lemma_late_bid_moves_the_index(
    store: StoreView,
    kind: AuctionType,
    now: BlockNumber,
    bidder: AccountId,
    id: AuctionId,
    value: Balance,
)
    requires
        store.consistent(),
        bid_outcome(store, kind, now, bidder, id, value) is Ok,
        is_late(store.auctions[id].info.end, now),
    ensures
        store.bid_placed(id, now, bidder, value).consistent(),
        store.bid_placed(id, now, bidder, value).auctions[id].info.end == now + BID_ADD_BLOCKS,
        forall|height: BlockNumber|
            store.bid_placed(id, now, bidder, value).due(height).contains(id) <==> height == now
                + BID_ADD_BLOCKS,
{
    let before = store.auctions[id];
    let after = crate::traits::AuctionView {
        kind: before.kind,
        info: after_bid(before.info, now, bidder, value),
    };
    lemma_replaced_consistent(store, id, after);
    let placed = store.bid_placed(id, now, bidder, value);
    assert(placed.auctions[id] == after);
    assert forall|height: BlockNumber|
        placed.due(height).contains(id) <==> height == now + BID_ADD_BLOCKS by {
        if height == now + BID_ADD_BLOCKS {
            assert(placed.auctions.contains_key(id));
            assert(placed.due(placed.auctions[id].info.end).contains(id));
        }
    }
}

/// A bid touches one auction. Every other auction is kept as it was, and is
/// indexed where it was.
pub proof fn lemma_bid_leaves_the_others(
    store: StoreView,
    kind: AuctionType,
    now: BlockNumber,
    bidder: AccountId,
    id: AuctionId,
    value: Balance,
)
    requires
        store.consistent(),
        bid_outcome(store, kind, now, bidder, id, value) is Ok,
    ensures
        store.bid_placed(id, now, bidder, value).next_id == store.next_id,
        store.bid_placed(id, now, bidder, value).auctions.dom() == store.auctions.dom(),
        forall|other: AuctionId|
            other != id && store.auctions.contains_key(other) ==> #[trigger] store.bid_placed(
                id,
                now,
                bidder,
                value,
            ).auctions[other] == store.auctions[other],
        forall|height: BlockNumber, other: AuctionId|
            other != id ==> (#[trigger] store.bid_placed(id, now, bidder, value).due(
                height,
            ).contains(other) <==> store.due(height).contains(other)),
{
    let before = store.auctions[id];
    let after = crate::traits::AuctionView {
        kind: before.kind,
        info: after_bid(before.info, now, bidder, value),
    };
    let filled = store.with_auction(id, after);
    assert forall|h: BlockNumber| #[trigger] filled.due(h) == store.due(h) by {}
    lemma_moved(filled, id, before.info.end, after.info.end);
    let placed = store.bid_placed(id, now, bidder, value);
    assert(placed.auctions.dom() =~= store.auctions.dom());
}

/// Settling is done once. After a height was settled, settling it again
/// finds nothing and changes nothing: the auctions that were due are gone
/// from the table and from the index.
pub proof fn lemma_settling_again_finds_nothing(
    store: StoreView,
    now: BlockNumber,
    entries: Seq<TokenEntry>,
    again: Seq<TokenEntry>,
)
    requires
        store.consistent(),
    ensures
        settlements(store.concluded(now), now, again) == Seq::<crate::effects::Settlement>::empty(),
        store.concluded(now).concluded(now) == store.concluded(now),
        forall|id: AuctionId|
            store.due(now).contains(id) ==> !#[trigger] store.concluded(now).auctions.contains_key(
                id,
            ),
        forall|height: BlockNumber, id: AuctionId|
            store.due(now).contains(id) ==> !#[trigger] store.concluded(now).due(height).contains(
                id,
            ),
{
    lemma_concluded_consistent(store, now);
    let once = store.concluded(now);
    assert(settlements(once, now, again) =~= Seq::<crate::effects::Settlement>::empty());
    assert(once.due(now).to_set() =~= Set::<AuctionId>::empty());
    assert(once.concluded(now).auctions =~= once.auctions);
    assert(once.concluded(now).ends =~= once.ends);
    assert forall|height: BlockNumber, id: AuctionId| store.due(now).contains(id) implies !#[trigger]
    once.due(height).contains(id) by {
        if once.due(height).contains(id) {
            assert(once.auctions.contains_key(id));
        }
    }
}

/// Settling takes exactly the auctions that end at `now`. Every other auction
/// is kept as it was, and is indexed where it was.
pub proof fn lemma_settling_takes_what_is_due(store: StoreView, now: BlockNumber)
    requires
        store.consistent(),
    ensures
        store.concluded(now).next_id == store.next_id,
        forall|id: AuctionId| #[trigger]
            store.concluded(now).auctions.contains_key(id) <==> store.auctions.contains_key(id)
                && store.auctions[id].info.end != now,
        forall|id: AuctionId| #[trigger]
            store.concluded(now).auctions.contains_key(id) ==> store.concluded(now).auctions[id]
                == store.auctions[id],
        forall|height: BlockNumber|
            height != now ==> #[trigger] store.concluded(now).due(height) == store.due(height),
{
    lemma_concluded_consistent(store, now);
}

/// An auction that has started cannot be withdrawn. From its start on, the
/// attempt is refused as coming at the wrong time, whether or not anybody has
/// bid and whatever the registry holds.
pub proof fn lemma_started_auction_stays(
    store: StoreView,
    kind: AuctionType,
    now: BlockNumber,
    id: AuctionId,
    entry: TokenEntry,
)
    requires
        store.of_kind(kind, id),
        now >= store.auctions[id].info.start,
    ensures
        cancel_outcome(store, kind, now, id, entry) == refused(Error::AuctionAlreadyStarted),
        kind_of(Error::AuctionAlreadyStarted) == ErrorKind::StateConflict,
{
}

/// Numbers are handed out once. A new auction gets a number above that of
/// every auction in the table, and the counter only goes up.
pub proof fn lemma_numbers_are_fresh(
    store: StoreView,
    kind: AuctionType,
    caller: AccountId,
    info: AuctionInfoView,
)
    requires
        store.consistent(),
        store.next_id < AuctionId::MAX,
    ensures
        !store.auctions.contains_key(store.next_id),
        forall|id: AuctionId| #[trigger] store.auctions.contains_key(id) ==> id < store.next_id,
        store.created(kind, caller, info).next_id == store.next_id + 1,
        store.created(kind, caller, info).auctions.contains_key(store.next_id),
        forall|id: AuctionId|
            store.auctions.contains_key(id) ==> #[trigger] store.created(
                kind,
                caller,
                info,
            ).auctions[id] == store.auctions[id],
{
    let id = store.next_id;
    let filled = store.advanced().with_auction(
        id,
        crate::traits::AuctionView { kind, info: crate::rules::opened(info, caller) },
    );
    lemma_indexed(filled, info.end, id);
    if store.auctions.contains_key(store.next_id) {
        assert(store.next_id < store.next_id);
    }
}

} // verus!
