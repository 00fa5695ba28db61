//! The registry and the ledger as the auction house sees them, and what the
//! house and they keep to together.
//!
//! Nothing here runs. The host holds the registry and the ledger; this is the
//! account of what carrying out an [`Effect`] does to them, against which the
//! rules of the house are held.

use vstd::prelude::*;
use crate::primitives::{AccountId, AuctionId, Balance, BlockNumber, Token};
use crate::traits::{AuctionInfoView, AuctionType};
use crate::store::{StoreView, lemma_indexed, lemma_unindexed};
use crate::nft::{TokenData, TokenEntry, TokenInfo, holder_check, toggle_lock_check, toggled};
use crate::effects::{Effect, Settlement, bid_effects, release_effects, settlement_of};
use crate::rules::{
    after_bid, bid_outcome, cancel_outcome, create_outcome, opened, settlements,
    lemma_cancelled_consistent, lemma_created_consistent, lemma_moved, lemma_replaced_consistent,
};

verus! {

/// What the host holds: the registry's entry for each token, and under each
/// auction's lock the amount held with each account.
#[verifier::ext_equal]
pub struct World {
    pub tokens: Map<Token, TokenEntry>,
    pub locks: Map<(AuctionId, AccountId), Balance>,
}

impl World {
    /// What the registry holds for `token`.
    pub open spec fn entry(self, token: Token) -> TokenEntry {
        if self.tokens.contains_key(token) {
            self.tokens[token]
        } else {
            TokenEntry::absent()
        }
    }

    /// The world after the host has carried out `effect`. A call that the
    /// registry refuses changes nothing; a payment touches neither the
    /// registry nor the locks.
    pub open spec fn perform(self, effect: Effect) -> World {
        match effect {
            Effect::ToggleLock { account, token } => {
                if toggle_lock_check(account, self.entry(token)) is Ok {
                    World { tokens: self.tokens.insert(token, toggled(self.entry(token))), ..self }
                } else {
                    self
                }
            },
            Effect::TransferToken { from, to, token } => {
                if holder_check(from, self.entry(token)) is Ok {
                    World {
                        tokens: self.tokens.insert(token, self.entry(token).with_owner(to)),
                        ..self
                    }
                } else {
                    self
                }
            },
            Effect::SetLock { auction, account, amount } => World {
                locks: self.locks.insert((auction, account), amount),
                ..self
            },
            Effect::RemoveLock { auction, account } => World {
                locks: self.locks.remove((auction, account)),
                ..self
            },
            Effect::TransferCurrency { .. } => self,
        }
    }

    /// The world after the host has carried out `effects`, first to last.
    pub open spec fn perform_all(self, effects: Seq<Effect>) -> World
        decreases effects.len(),
    {
        if effects.len() == 0 {
            self
        } else {
            self.perform_all(effects.drop_last()).perform(effects.last())
        }
    }
}

/// The token of an auction is in the house's keeping: the registry holds it
/// as the owner's, and locked.
pub open spec fn in_custody(world: World, auction: AuctionInfoView) -> bool {
    let entry = world.entry(auction.token_id);
    &&& entry.class is Some
    &&& entry.owned_by(auction.owner)
    &&& entry.locked()
}

/// The lock of an auction is with the bidder that leads, for the amount of
/// the bid, and with nobody else; without a bid nobody holds it.
pub open spec fn lock_follows_bid(world: World, id: AuctionId, auction: AuctionInfoView) -> bool {
    &&& forall|account: AccountId| #[trigger]
        world.locks.contains_key((id, account)) <==> (auction.last_bid matches Some((leader, _))
            && leader == account)
    &&& auction.last_bid matches Some((leader, amount)) ==> world.locks[(id, leader)] == amount
}

/// The house and the world agree at height `now`.
///
/// Every auction in the table has its token in custody and its lock with the
/// bidder that leads; an auction that has not started has no bid; no two
/// auctions are about one token; and no lock is left over from an auction
/// that is gone.
pub open spec fn sound(store: StoreView, world: World, now: BlockNumber) -> bool {
    &&& store.consistent()
    &&& forall|id: AuctionId| #[trigger]
        store.auctions.contains_key(id) ==> {
            &&& in_custody(world, store.auctions[id].info)
            &&& lock_follows_bid(world, id, store.auctions[id].info)
            &&& now <= store.auctions[id].info.start ==> store.auctions[id].info.last_bid is None
        }
    &&& forall|id: AuctionId, account: AccountId| #[trigger]
        world.locks.contains_key((id, account)) ==> store.auctions.contains_key(id)
    &&& forall|a: AuctionId, b: AuctionId|
        #![trigger store.auctions[a], store.auctions[b]]
        store.auctions.contains_key(a) && store.auctions.contains_key(b) && a != b
            ==> store.auctions[a].info.token_id != store.auctions[b].info.token_id
}

/// Carrying out one more effect after a list is carrying out the longer list.
pub proof fn lemma_perform_push(world: World, effects: Seq<Effect>, effect: Effect)
    ensures
        world.perform_all(effects.push(effect)) == world.perform_all(effects).perform(effect),
{
    assert(effects.push(effect).drop_last() =~= effects);
}

/// Carrying out two lists one after the other is carrying out their join.
pub proof fn lemma_perform_concat(world: World, first: Seq<Effect>, second: Seq<Effect>)
    ensures
        world.perform_all(first + second) == world.perform_all(first).perform_all(second),
    decreases second.len(),
{
    if second.len() == 0 {
        assert(first + second =~= first);
    } else {
        lemma_perform_concat(world, first, second.drop_last());
        assert((first + second).drop_last() =~= first + second.drop_last());
        assert((first + second).last() == second.last());
    }
}

/// Carrying out a list of one, two, three or four effects is carrying them
/// out one by one.
pub proof fn lemma_perform_few(world: World, a: Effect, b: Effect, c: Effect, d: Effect)
    ensures
        world.perform_all(Seq::empty()) == world,
        world.perform_all(seq![a]) == world.perform(a),
        world.perform_all(seq![a, b]) == world.perform(a).perform(b),
        world.perform_all(seq![a, b, c]) == world.perform(a).perform(b).perform(c),
        world.perform_all(seq![a, b, c, d]) == world.perform(a).perform(b).perform(c).perform(d),
{
    let none = Seq::<Effect>::empty();
    lemma_perform_push(world, none, a);
    assert(seq![a] =~= none.push(a));
    lemma_perform_push(world, seq![a], b);
    assert(seq![a, b] =~= seq![a].push(b));
    lemma_perform_push(world, seq![a, b], c);
    assert(seq![a, b, c] =~= seq![a, b].push(c));
    lemma_perform_push(world, seq![a, b, c], d);
    assert(seq![a, b, c, d] =~= seq![a, b, c].push(d));
}

/// Time passes. What agrees at one height agrees at every later height.
pub proof fn lemma_time_passes(store: StoreView, world: World, now: BlockNumber, later: BlockNumber)
    requires
        sound(store, world, now),
        now <= later,
    ensures
        sound(store, world, later),
{
}

/// Opening an auction takes the token into custody.
///
/// Where the house and the world agree, and an auction is opened on what the
/// registry holds for its token, they agree again once the host has carried
/// out what the call handed back; the token is then locked, and still the
/// caller's.
pub proof fn lemma_opening_locks_the_token(
    store: StoreView,
    world: World,
    kind: AuctionType,
    now: BlockNumber,
    caller: AccountId,
    info: AuctionInfoView,
)
    requires
        sound(store, world, now),
        create_outcome(store, now, caller, info, world.entry(info.token_id)) is Ok,
    ensures
        sound(
            store.created(kind, caller, info),
            world.perform_all(seq![Effect::ToggleLock { account: caller, token: info.token_id }]),
            now,
        ),
        in_custody(
            world.perform_all(seq![Effect::ToggleLock { account: caller, token: info.token_id }]),
            opened(info, caller),
        ),
{
    let effect = Effect::ToggleLock { account: caller, token: info.token_id };
    lemma_perform_few(world, effect, effect, effect, effect);
    let after = world.perform(effect);
    let id = store.next_id;
    let made = store.created(kind, caller, info);
    lemma_created_consistent(store, kind, caller, info);
    let filled = store.advanced().with_auction(
        id,
        crate::traits::AuctionView { kind, info: opened(info, caller) },
    );
    lemma_indexed(filled, info.end, id);
    assert(!store.auctions.contains_key(id)) by {
        if store.auctions.contains_key(id) {
            assert(id < store.next_id);
        }
    }
    assert(after.entry(info.token_id) == toggled(world.entry(info.token_id)));
    assert forall|other: AuctionId| #[trigger] made.auctions.contains_key(other) implies {
        &&& in_custody(after, made.auctions[other].info)
        &&& lock_follows_bid(after, other, made.auctions[other].info)
        &&& now <= made.auctions[other].info.start ==> made.auctions[other].info.last_bid is None
    } by {
        if other != id {
            assert(store.auctions.contains_key(other));
            assert(in_custody(world, store.auctions[other].info));
            assert(store.auctions[other].info.token_id != info.token_id);
        } else {
            assert forall|account: AccountId| !#[trigger] after.locks.contains_key(
                (id, account),
            ) by {
                if world.locks.contains_key((id, account)) {
                    assert(store.auctions.contains_key(id));
                }
            }
        }
    }
    assert forall|a: AuctionId, b: AuctionId|
        #![trigger made.auctions[a], made.auctions[b]]
        made.auctions.contains_key(a) && made.auctions.contains_key(b) && a != b implies made.auctions[a].info.token_id
        != made.auctions[b].info.token_id by {
        if a == id {
            assert(store.auctions.contains_key(b));
            assert(in_custody(world, store.auctions[b].info));
        } else if b == id {
            assert(store.auctions.contains_key(a));
            assert(in_custody(world, store.auctions[a].info));
        } else {
            assert(store.auctions.contains_key(a) && store.auctions.contains_key(b));
        }
    }
}

/// A bid moves the lock and nothing else.
///
/// Where the house and the world agree, and a bid goes through, they agree
/// again once the host has carried out what the call handed back: the lock of
/// the auction is then with the new bidder, for the amount of the bid, and
/// with nobody else.
pub proof fn lemma_bid_moves_the_lock(
    store: StoreView,
    world: World,
    kind: AuctionType,
    now: BlockNumber,
    bidder: AccountId,
    id: AuctionId,
    value: Balance,
)
    requires
        sound(store, world, now),
        bid_outcome(store, kind, now, bidder, id, value) is Ok,
    ensures
        sound(
            store.bid_placed(id, now, bidder, value),
            world.perform_all(bid_effects(id, store.auctions[id].info.last_bid, bidder, value)),
            now,
        ),
        forall|account: AccountId| #[trigger]
            world.perform_all(
                bid_effects(id, store.auctions[id].info.last_bid, bidder, value),
            ).locks.contains_key((id, account)) <==> account == bidder,
        world.perform_all(
            bid_effects(id, store.auctions[id].info.last_bid, bidder, value),
        ).locks[(id, bidder)] == value,
        world.perform_all(
            bid_effects(id, store.auctions[id].info.last_bid, bidder, value),
        ).tokens == world.tokens,
{
    let before = store.auctions[id];
    let info = after_bid(before.info, now, bidder, value);
    let replaced = crate::traits::AuctionView { kind: before.kind, info };
    let placed = store.bid_placed(id, now, bidder, value);
    let hold = Effect::SetLock { auction: id, account: bidder, amount: value };
    let effects = bid_effects(id, before.info.last_bid, bidder, value);
    let after = world.perform_all(effects);
    lemma_replaced_consistent(store, id, replaced);
    let filled = store.with_auction(id, replaced);
    assert forall|h: BlockNumber| #[trigger] filled.due(h) == store.due(h) by {}
    lemma_moved(filled, id, before.info.end, info.end);
    assert(in_custody(world, before.info));
    assert(lock_follows_bid(world, id, before.info));
    match before.info.last_bid {
        Some((leader, _)) => {
            let release = Effect::RemoveLock { auction: id, account: leader };
            lemma_perform_few(world, release, hold, hold, hold);
            assert(after == world.perform(release).perform(hold));
            assert forall|account: AccountId| #[trigger]
                after.locks.contains_key((id, account)) <==> account == bidder by {
                if account != bidder {
                    assert(world.locks.contains_key((id, account)) <==> leader == account);
                }
            }
        },
        None => {
            lemma_perform_few(world, hold, hold, hold, hold);
            assert(after == world.perform(hold));
            assert forall|account: AccountId| #[trigger]
                after.locks.contains_key((id, account)) <==> account == bidder by {
                if account != bidder {
                    assert(!world.locks.contains_key((id, account)));
                }
            }
        },
    }
    assert(after.tokens == world.tokens);
    assert forall|other: AuctionId| #[trigger] placed.auctions.contains_key(other) implies {
        &&& in_custody(after, placed.auctions[other].info)
        &&& lock_follows_bid(after, other, placed.auctions[other].info)
        &&& now <= placed.auctions[other].info.start
            ==> placed.auctions[other].info.last_bid is None
    } by {
        assert(store.auctions.contains_key(other));
        if other != id {
            assert(placed.auctions[other] == store.auctions[other]);
            assert(lock_follows_bid(world, other, store.auctions[other].info));
            assert forall|account: AccountId| #[trigger]
                after.locks.contains_key((other, account)) <==> world.locks.contains_key(
                    (other, account),
                ) by {}
        }
    }
    assert forall|other: AuctionId, account: AccountId| #[trigger]
        after.locks.contains_key((other, account)) implies placed.auctions.contains_key(other) by {
        if other != id {
            assert(world.locks.contains_key((other, account)));
        }
    }
    assert forall|a: AuctionId, b: AuctionId|
        #![trigger placed.auctions[a], placed.auctions[b]]
        placed.auctions.contains_key(a) && placed.auctions.contains_key(b) && a
            != b implies placed.auctions[a].info.token_id != placed.auctions[b].info.token_id by {
        assert(store.auctions.contains_key(a) && store.auctions.contains_key(b));
        assert(store.auctions[a].info.token_id != store.auctions[b].info.token_id);
    }
}

/// Before anything has happened, the house and a world without locks agree.
pub proof fn lemma_empty_house_agrees(world: World, now: BlockNumber)
    requires
        world.locks == Map::<(AuctionId, AccountId), Balance>::empty(),
    ensures
        sound(StoreView::empty(), world, now),
{
}

/// The world after an auction is gone, from what it was before: the token is
/// unlocked and, where somebody won, the winner's; the lock of the auction is
/// with nobody; everything else is as it was.
pub open spec fn given_back(world: World, id: AuctionId, auction: AuctionInfoView) -> World {
    let entry = world.entry(auction.token_id);
    let holder = match auction.last_bid {
        Some((winner, _)) => winner,
        None => auction.owner,
    };
    World {
        tokens: world.tokens.insert(
            auction.token_id,
            TokenEntry {
                class: entry.class,
                token: Some(TokenInfo { owner: holder, data: TokenData { locked: false } }),
            },
        ),
        locks: match auction.last_bid {
            Some((winner, _)) => world.locks.remove((id, winner)),
            None => world.locks,
        },
    }
}

/// Once an auction is out of the table and the world has given its token
/// back, the house and the world agree again.
proof fn lemma_gone_and_given_back(store: StoreView, world: World, now: BlockNumber, id: AuctionId)
    requires
        sound(store, world, now),
        store.auctions.contains_key(id),
    ensures
        sound(store.cancelled(id), given_back(world, id, store.auctions[id].info), now),
{
    let auction = store.auctions[id].info;
    let after = given_back(world, id, auction);
    let rest = store.cancelled(id);
    lemma_cancelled_consistent(store, id);
    let emptied = store.without_auction(id);
    lemma_unindexed(emptied, auction.end, id);
    assert(in_custody(world, auction));
    assert(lock_follows_bid(world, id, auction));
    assert forall|other: AuctionId| #[trigger] rest.auctions.contains_key(other) implies {
        &&& in_custody(after, rest.auctions[other].info)
        &&& lock_follows_bid(after, other, rest.auctions[other].info)
        &&& now <= rest.auctions[other].info.start ==> rest.auctions[other].info.last_bid is None
    } by {
        assert(store.auctions.contains_key(other) && other != id);
        assert(rest.auctions[other] == store.auctions[other]);
        assert(store.auctions[other].info.token_id != store.auctions[id].info.token_id);
        assert(in_custody(world, store.auctions[other].info));
        assert(lock_follows_bid(world, other, store.auctions[other].info));
        assert forall|account: AccountId| #[trigger]
            after.locks.contains_key((other, account)) <==> world.locks.contains_key(
                (other, account),
            ) by {}
    }
    assert forall|other: AuctionId, account: AccountId| #[trigger]
        after.locks.contains_key((other, account)) implies rest.auctions.contains_key(other) by {
        assert(world.locks.contains_key((other, account)));
        assert(store.auctions.contains_key(other));
        if other == id {
            assert(auction.last_bid matches Some((leader, _)) && leader == account);
        }
    }
    assert forall|a: AuctionId, b: AuctionId|
        #![trigger rest.auctions[a], rest.auctions[b]]
        rest.auctions.contains_key(a) && rest.auctions.contains_key(b) && a
            != b implies rest.auctions[a].info.token_id != rest.auctions[b].info.token_id by {
        assert(store.auctions.contains_key(a) && store.auctions.contains_key(b));
        assert(store.auctions[a].info.token_id != store.auctions[b].info.token_id);
    }
}

/// Withdrawing an auction gives the token back, once.
///
/// Where the house and the world agree, and an auction is withdrawn on what
/// the registry holds for its token, what the call hands back is one unlock.
/// Once the host has carried it out the token is the owner's and free, no
/// lock has moved, and the house and the world agree again.
pub proof fn lemma_withdrawing_unlocks_once(
    store: StoreView,
    world: World,
    kind: AuctionType,
    now: BlockNumber,
    id: AuctionId,
)
    requires
        sound(store, world, now),
        cancel_outcome(
            store,
            kind,
            now,
            id,
            world.entry(store.auctions[id].info.token_id),
        ) is Ok,
    ensures
        release_effects(
            store.auctions[id].info.owner,
            store.auctions[id].info.token_id,
            world.entry(store.auctions[id].info.token_id),
        ) == seq![
            Effect::ToggleLock {
                account: store.auctions[id].info.owner,
                token: store.auctions[id].info.token_id,
            },
        ],
        world.perform_all(
            release_effects(
                store.auctions[id].info.owner,
                store.auctions[id].info.token_id,
                world.entry(store.auctions[id].info.token_id),
            ),
        ) == given_back(world, id, store.auctions[id].info),
        store.auctions[id].info.last_bid is None,
        sound(store.cancelled(id), given_back(world, id, store.auctions[id].info), now),
{
    let auction = store.auctions[id].info;
    let unlock = Effect::ToggleLock { account: auction.owner, token: auction.token_id };
    assert(in_custody(world, auction));
    lemma_perform_few(world, unlock, unlock, unlock, unlock);
    assert(world.perform(unlock).tokens =~= given_back(world, id, auction).tokens);
    lemma_gone_and_given_back(store, world, now, id);
}

/// Settling an auction gives the token back, once, and moves it on to the
/// winner.
///
/// Where the house and the world agree, an auction is settled without
/// failure on what the registry holds for its token: the token is unlocked
/// and, where somebody won, handed to the winner, whose lock is let go. Once
/// the host has carried that out, the house without the auction and the
/// world agree again.
pub proof fn lemma_settling_unlocks_once(
    store: StoreView,
    world: World,
    now: BlockNumber,
    id: AuctionId,
)
    requires
        sound(store, world, now),
        store.auctions.contains_key(id),
    ensures
        ({
            let auction = store.auctions[id].info;
            let settled = settlement_of(
                id,
                auction.owner,
                auction.token_id,
                auction.last_bid,
                world.entry(auction.token_id),
            );
            &&& settled.failure is None
            &&& settled.locked
            &&& world.perform_all(settled.spec_effects()) == given_back(world, id, auction)
            &&& sound(store.cancelled(id), given_back(world, id, auction), now)
        }),
{
    let auction = store.auctions[id].info;
    let entry = world.entry(auction.token_id);
    let settled = settlement_of(id, auction.owner, auction.token_id, auction.last_bid, entry);
    let unlock = Effect::ToggleLock { account: auction.owner, token: auction.token_id };
    assert(in_custody(world, auction));
    assert(lock_follows_bid(world, id, auction));
    match auction.last_bid {
        None => {
            assert(settled.spec_effects() =~= seq![unlock]);
            lemma_perform_few(world, unlock, unlock, unlock, unlock);
            assert(world.perform(unlock).tokens =~= given_back(world, id, auction).tokens);
        },
        Some((winner, amount)) => {
            let hand = Effect::TransferToken {
                from: auction.owner,
                to: winner,
                token: auction.token_id,
            };
            let free = Effect::RemoveLock { auction: id, account: winner };
            let pay = Effect::TransferCurrency { from: winner, to: auction.owner, amount };
            assert(settled.spec_effects() =~= seq![unlock, hand, free, pay]);
            lemma_perform_few(world, unlock, hand, free, pay);
            let done = world.perform(unlock).perform(hand).perform(free).perform(pay);
            assert(world.perform(unlock).entry(auction.token_id) == toggled(entry));
            assert(done.tokens =~= given_back(world, id, auction).tokens);
            assert(done.locks =~= given_back(world, id, auction).locks);
        },
    }
    lemma_gone_and_given_back(store, world, now, id);
}

/// What the registry holds for the token of each auction due at `now`, in
/// the order of the index.
pub open spec fn due_entries(store: StoreView, world: World, now: BlockNumber) -> Seq<TokenEntry> {
    Seq::new(
        store.due(now).len(),
        |i: int| world.entry(store.auctions[store.due(now)[i]].info.token_id),
    )
}

/// What a list of settlements asks of the host, one settlement after the
/// other.
pub open spec fn all_effects(settled: Seq<Settlement>) -> Seq<Effect>
    decreases settled.len(),
{
    if settled.len() == 0 {
        Seq::empty()
    } else {
        all_effects(settled.drop_last()) + settled.last().spec_effects()
    }
}

/// The table after the first `k` of the auctions due at `now` have left it,
/// one by one.
spec fn peeled(store: StoreView, now: BlockNumber, k: int) -> StoreView
    decreases k,
{
    if k <= 0 {
        store
    } else {
        peeled(store, now, k - 1).cancelled(store.due(now)[k - 1])
    }
}

proof fn lemma_peeled(store: StoreView, world: World, now: BlockNumber, k: int)
    requires
        sound(store, world, now),
        0 <= k <= store.due(now).len(),
    ensures
        ({
            let ids = store.due(now);
            let done = settlements(store, now, due_entries(store, world, now));
            let part = peeled(store, now, k);
            let then = world.perform_all(all_effects(done.take(k)));
            &&& sound(part, then, now)
            &&& part.due(now) == ids.skip(k)
            &&& part.next_id == store.next_id
            &&& forall|h: BlockNumber| h != now ==> #[trigger] part.due(h) == store.due(h)
            &&& forall|x: AuctionId| #[trigger]
                part.auctions.contains_key(x) <==> store.auctions.contains_key(x) && !ids.take(
                    k,
                ).contains(x)
            &&& forall|x: AuctionId| #[trigger]
                part.auctions.contains_key(x) ==> part.auctions[x] == store.auctions[x]
            &&& forall|j: int|
                k <= j < ids.len() ==> then.entry(store.auctions[#[trigger] ids[j]].info.token_id)
                    == world.entry(store.auctions[ids[j]].info.token_id)
            &&& forall|j: int| 0 <= j < k ==> (#[trigger] done[j]).failure is None
        }),
    decreases k,
{
    let ids = store.due(now);
    let entries = due_entries(store, world, now);
    let done = settlements(store, now, entries);
    if k == 0 {
        assert(done.take(0) =~= Seq::<Settlement>::empty());
        assert(ids.skip(0) =~= ids);
        assert(ids.take(0) =~= Seq::<AuctionId>::empty());
    } else {
        lemma_peeled(store, world, now, k - 1);
        let part = peeled(store, now, k - 1);
        let then = world.perform_all(all_effects(done.take(k - 1)));
        let id = ids[k - 1];
        assert(ids.len() > 0);
        assert(store.ends.contains_key(now));
        assert(ids.no_duplicates());
        assert(store.due(now).contains(id));
        assert(store.auctions.contains_key(id) && store.auctions[id].info.end == now);
        assert(!ids.take(k - 1).contains(id)) by {
            if ids.take(k - 1).contains(id) {
                let j = ids.take(k - 1).index_of(id);
                assert(0 <= j < k - 1 && ids.take(k - 1)[j] == id);
                assert(ids[j] == ids[k - 1]);
            }
        }
        assert(part.auctions.contains_key(id));
        let auction = store.auctions[id].info;
        assert(part.auctions[id].info == auction);
        lemma_settling_unlocks_once(part, then, now, id);
        assert(then.entry(auction.token_id) == world.entry(auction.token_id));
        assert(entries[k - 1] == world.entry(auction.token_id));
        assert(done[k - 1] == settlement_of(
            id,
            auction.owner,
            auction.token_id,
            auction.last_bid,
            then.entry(auction.token_id),
        ));
        assert(done.take(k).drop_last() =~= done.take(k - 1));
        assert(done.take(k).last() == done[k - 1]);
        lemma_perform_concat(world, all_effects(done.take(k - 1)), done[k - 1].spec_effects());
        let next = peeled(store, now, k);
        let after = world.perform_all(all_effects(done.take(k)));
        assert(after == given_back(then, id, auction));
        // the index
        let emptied = part.without_auction(id);
        lemma_unindexed(emptied, now, id);
        assert(emptied.due(now) == ids.skip(k - 1));
        assert(ids.skip(k - 1)[0] == id);
        crate::store::lemma_index_of_unique(ids.skip(k - 1), 0);
        assert(crate::store::without(ids.skip(k - 1), id) =~= ids.skip(k));
        assert(next.due(now) =~= ids.skip(k));
        assert forall|h: BlockNumber| h != now implies #[trigger] next.due(h) == store.due(h) by {
            assert(next.due(h) == emptied.due(h));
            assert(emptied.due(h) == part.due(h));
        }
        // the table
        assert forall|x: AuctionId| #[trigger]
            next.auctions.contains_key(x) <==> store.auctions.contains_key(x) && !ids.take(
                k,
            ).contains(x) by {
            if ids.take(k).contains(x) {
                let j = ids.take(k).index_of(x);
                assert(0 <= j < k && ids.take(k)[j] == x);
                if j < k - 1 {
                    assert(ids.take(k - 1)[j] == x);
                }
            }
            if ids.take(k - 1).contains(x) {
                let j = ids.take(k - 1).index_of(x);
                assert(0 <= j < k - 1 && ids.take(k - 1)[j] == x);
                assert(ids.take(k)[j] == x);
            }
            if x == id {
                assert(ids.take(k)[k - 1] == x);
            }
        }
        // the tokens of the auctions still to come
        assert forall|j: int| k <= j < ids.len() implies after.entry(
            store.auctions[#[trigger] ids[j]].info.token_id,
        ) == world.entry(store.auctions[ids[j]].info.token_id) by {
            let other = ids[j];
            assert(store.due(now).contains(other));
            assert(other != id);
            assert(!ids.take(k - 1).contains(other)) by {
                if ids.take(k - 1).contains(other) {
                    let m = ids.take(k - 1).index_of(other);
                    assert(0 <= m < k - 1 && ids.take(k - 1)[m] == other);
                    assert(ids[m] == ids[j]);
                }
            }
            assert(part.auctions.contains_key(other));
            assert(part.auctions[other].info.token_id != part.auctions[id].info.token_id);
        }
    }
}

/// Settling a height keeps the house and the world in agreement.
///
/// Where they agree, and the auctions due at `now` are settled on what the
/// registry holds for their tokens, no settlement fails, and once the host
/// has carried out what the settlements ask, one after the other, the house
/// and the world agree again: every token is given back once, every lock is
/// let go, and nothing else has moved.
pub proof fn lemma_settling_keeps_agreement(store: StoreView, world: World, now: BlockNumber)
    requires
        sound(store, world, now),
    ensures
        ({
            let done = settlements(store, now, due_entries(store, world, now));
            &&& forall|i: int| 0 <= i < done.len() ==> (#[trigger] done[i]).failure is None
            &&& sound(store.concluded(now), world.perform_all(all_effects(done)), now)
        }),
{
    let ids = store.due(now);
    let done = settlements(store, now, due_entries(store, world, now));
    let n = ids.len() as int;
    lemma_peeled(store, world, now, n);
    let part = peeled(store, now, n);
    assert(done.take(n) =~= done);
    assert(ids.take(n) =~= ids);
    assert(ids.skip(n) =~= Seq::<AuctionId>::empty());
    let end = store.concluded(now);
    assert(part.auctions =~= end.auctions);
    assert(part.ends =~= end.ends) by {
        assert forall|h: BlockNumber| part.ends.contains_key(h) <==> end.ends.contains_key(h) by {
            if h == now {
                if part.ends.contains_key(now) {
                    assert(part.due(now).len() > 0);
                }
            } else {
                assert(part.due(h) == store.due(h));
                if part.ends.contains_key(h) {
                    assert(part.ends[h].len() > 0);
                }
                if store.ends.contains_key(h) {
                    assert(store.ends[h].len() > 0);
                }
            }
        }
        assert forall|h: BlockNumber| part.ends.contains_key(h) implies part.ends[h]
            == end.ends[h] by {
            assert(part.due(h) == store.due(h));
        }
    }
    assert(part =~= end);
}

} // verus!
