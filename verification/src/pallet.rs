//! The auction house: the auction table, run by the rules.

use vstd::prelude::*;
use crate::primitives::{AccountId, AuctionId, Balance, BlockNumber};
use crate::arith::{BID_ADD_BLOCKS, MIN_AUCTION_DUR, bid_step};
use crate::traits::{
    Auction, AuctionInfo, AuctionInfoView, AuctionType, CandleAuction, CandleAuctionInfo, EnglishAuction,
    EnglishAuctionInfo, TopUpAuction, TopUpAuctionInfo,
};
use crate::store::{AuctionStore, Store, StoreView};
use crate::nft::TokenEntry;
use crate::error::Error;
use crate::dispatch::{DispatchError, RawOrigin, ensure_signed, signer};
use crate::effects::{Effect, Settlement, bid_effects, release_effects, settlement_of};
use crate::rules::{
    bids, creates, entry_at, new_auction_check, replaces, settlements, settles, withdraws,
    lemma_cancelled_consistent, lemma_concluded_consistent, lemma_created_consistent,
    lemma_replaced_consistent,
};

verus! {

/// The auction house, over the auction table `S`.
pub struct Pallet<S: Store> {
    store: S,
}

impl<S: Store> View for Pallet<S> {
    type V = StoreView;

    closed spec fn view(&self) -> StoreView {
        self.store@
    }
}

/// What the auction house reports of a call that went through.
#[derive(Clone, Copy, Debug, PartialEq, Eq, Structural)]
pub enum Event {
    /// An account has opened an English auction.
    EnglishAuctionCreated(AccountId, AuctionId),
    /// An account has opened a candle auction.
    CandleAuctionCreated(AccountId, AuctionId),
    /// An account has opened a top-up auction.
    TopUpAuctionCreated(AccountId, AuctionId),
    /// An account has bid an amount in an auction.
    Bid(AuctionId, AccountId, Balance),
    /// An auction has ended.
    AuctionConcluded(AuctionId),
    /// An auction has been withdrawn.
    AuctionRemoved(AuctionId),
}

/// The report of a new auction of kind `kind`.
pub open spec fn created_event(kind: AuctionType, who: AccountId, id: AuctionId) -> Event {
    match kind {
        AuctionType::English => Event::EnglishAuctionCreated(who, id),
        AuctionType::Candle => Event::CandleAuctionCreated(who, id),
        AuctionType::TopUp => Event::TopUpAuctionCreated(who, id),
    }
}

/// What a signed call comes to: an unsigned one is refused and changes
/// nothing; a signed one comes to what `run` makes of it for the account that
/// signed, where `run` is handed that account and how the call ended without
/// its report, and `report` says what the report has to be.
pub open spec fn signed<T>(
    before: StoreView,
    after: StoreView,
    origin: RawOrigin,
    r: Result<(Event, T), DispatchError>,
    run: spec_fn(AccountId, Result<T, DispatchError>) -> bool,
    report: spec_fn(AccountId) -> Event,
) -> bool {
    match signer(origin) {
        None => after == before && r is Err && r->Err_0 == DispatchError::BadOrigin,
        Some(sender) => match r {
            Ok((event, rest)) => run(sender, Ok(rest)) && event == report(sender),
            Err(e) => run(sender, Err(e)),
        },
    }
}

/// What a signed call to open an auction of kind `kind` comes to: what
/// [`creates`] says for the account that signed, with the report of the new
/// auction.
pub open spec fn opens(
    before: StoreView,
    after: StoreView,
    kind: AuctionType,
    now: BlockNumber,
    origin: RawOrigin,
    info: AuctionInfoView,
    entry: TokenEntry,
    r: Result<(Event, Vec<Effect>), DispatchError>,
) -> bool {
    signed(
        before,
        after,
        origin,
        r,
        |sender: AccountId, done: Result<Vec<Effect>, DispatchError>|
            creates(
                before,
                after,
                kind,
                now,
                sender,
                info,
                entry,
                match done {
                    Ok(effects) => Ok((before.next_id, effects)),
                    Err(e) => Err(e),
                },
            ),
        |sender: AccountId| created_event(kind, sender, before.next_id),
    )
}

/// What a signed bid comes to: what [`bids`] says for the account that
/// signed, with the report of the bid.
pub open spec fn offers(
    before: StoreView,
    after: StoreView,
    kind: AuctionType,
    now: BlockNumber,
    origin: RawOrigin,
    id: AuctionId,
    value: Balance,
    r: Result<(Event, Vec<Effect>), DispatchError>,
) -> bool {
    signed(
        before,
        after,
        origin,
        r,
        |sender: AccountId, done: Result<Vec<Effect>, DispatchError>|
            bids(before, after, kind, now, sender, id, value, done),
        |sender: AccountId| Event::Bid(id, sender, value),
    )
}

/// What a signed call to withdraw an auction comes to: what [`withdraws`]
/// says, whoever signed, with the report of the withdrawal.
pub open spec fn removes(
    before: StoreView,
    after: StoreView,
    kind: AuctionType,
    now: BlockNumber,
    origin: RawOrigin,
    id: AuctionId,
    entry: TokenEntry,
    r: Result<(Event, Vec<Effect>), DispatchError>,
) -> bool {
    signed(
        before,
        after,
        origin,
        r,
        |sender: AccountId, done: Result<Vec<Effect>, DispatchError>|
            withdraws(before, after, kind, now, id, entry, done),
        |sender: AccountId| Event::AuctionRemoved(id),
    )
}

/// Whether `caller` may open the auction `info` at height `now`, given what
/// the registry holds for the token. The first rule that is broken decides:
/// the auction must not start in the past, it has to last long enough and to
/// have a name, and the token has to be the caller's and free.
pub fn check_new_auction(
    now: BlockNumber,
    caller: AccountId,
    info: &AuctionInfo,
    entry: &TokenEntry,
) -> (r: Result<(), DispatchError>)
    ensures
        r == new_auction_check(now, caller, info@, *entry),
{
    if info.start < now {
        return Err(DispatchError::Auction(Error::AuctionStartTimeAlreadyPassed));
    }
    let long_enough = match info.start.checked_add(MIN_AUCTION_DUR) {
        Some(least) => info.end > least,
        None => false,
    };
    if !long_enough {
        return Err(DispatchError::Auction(Error::InvalidTimeConfiguration));
    }
    if info.name.len() == 0 {
        return Err(DispatchError::Auction(Error::EmptyAuctionName));
    }
    let is_owner = crate::nft::Pallet::is_owner(&caller, entry);
    if !is_owner {
        return Err(DispatchError::Auction(Error::NotATokenOwner));
    }
    let nft_locked = match crate::nft::Pallet::is_locked(entry) {
        Ok(locked) => locked,
        Err(e) => {
            return Err(e);
        },
    };
    if nft_locked {
        return Err(DispatchError::Auction(Error::TokenLocked));
    }
    Ok(())
}

/// How the auction `id` ends, given what the registry holds for its token.
fn settle(id: AuctionId, info: &AuctionInfo, entry: &TokenEntry) -> (s: Settlement)
    ensures
        s == settlement_of(id, info.owner, info.token_id, info.last_bid, *entry),
{
    let (locked, failure) = if entry.class.is_none() {
        (
            match entry.token {
                Some(token) => token.data.locked,
                None => false,
            },
            Some(crate::nft::Error::ClassNotFound),
        )
    } else {
        match entry.token {
            None => (false, Some(crate::nft::Error::TokenNotFound)),
            Some(token) => if token.owner != info.owner {
                (token.data.locked, Some(crate::nft::Error::NoPermission))
            } else {
                (token.data.locked, None)
            },
        }
    };
    Settlement {
        id,
        owner: info.owner,
        token_id: info.token_id,
        last_bid: info.last_bid,
        locked,
        failure,
    }
}

/// The report of a new auction of kind `kind`.
fn report_created(kind: AuctionType, who: AccountId, id: AuctionId) -> (event: Event)
    ensures
        event == created_event(kind, who, id),
{
    match kind {
        AuctionType::English => Event::EnglishAuctionCreated(who, id),
        AuctionType::Candle => Event::CandleAuctionCreated(who, id),
        AuctionType::TopUp => Event::TopUpAuctionCreated(who, id),
    }
}

impl Pallet<AuctionStore> {
    /// An auction house without auctions, whose first auction gets number 0.
    pub fn new() -> (house: Self)
        ensures
            house@ == StoreView::empty(),
            house.wf(),
    {
        Pallet { store: AuctionStore::new() }
    }

    /// An auction house without auctions, whose first auction gets the number
    /// `next_id`.
    pub fn starting_at(next_id: AuctionId) -> (house: Self)
        ensures
            house@ == (StoreView { next_id, ..StoreView::empty() }),
            house.wf(),
    {
        Pallet { store: AuctionStore::starting_at(next_id) }
    }
}

impl<S: Store> Pallet<S> {
    /// What the auction house keeps to between calls.
    pub open spec fn wf(&self) -> bool {
        self@.consistent()
    }

    /// The auction house over the table `store`, as it stands.
    pub fn over(store: S) -> (house: Self)
        requires
            store@.consistent(),
        ensures
            house@ == store@,
            house.wf(),
    {
        Pallet { store }
    }

    /// Opens an auction of kind `kind` for `caller`, at height `now`.
    ///
    /// The auction has to pass [`check_new_auction`], a number has to be left
    /// for it, and the registry has to let the caller lock the token. Then the
    /// auction is kept under the next number, as the caller's and without a
    /// bid, and indexed under its end; handed back are the number and the one
    /// thing left to do, locking the token. A call that is refused changes
    /// nothing.
    pub fn create_auction(
        &mut self,
        kind: AuctionType,
        now: BlockNumber,
        caller: AccountId,
        info: AuctionInfo,
        entry: &TokenEntry,
    ) -> (r: Result<(AuctionId, Vec<Effect>), DispatchError>)
        requires
            old(self).wf(),
        ensures
            final(self).wf(),
            creates(old(self)@, final(self)@, kind, now, caller, info@, *entry, r),
    {
        match check_new_auction(now, caller, &info, entry) {
            Err(e) => {
                return Err(e);
            },
            Ok(()) => {},
        }
        if self.store.next_id() == AuctionId::MAX {
            return Err(DispatchError::Auction(Error::NoAvailableAuctionId));
        }
        match crate::nft::Pallet::toggle_lock(&caller, info.token_id, entry) {
            Err(e) => {
                return Err(e);
            },
            Ok(_) => {},
        }
        let id = match self.store.allocate_id() {
            Ok(id) => id,
            Err(e) => {
                return Err(DispatchError::Auction(e));
            },
        };
        let end = info.end;
        let token = info.token_id;
        let auction = Auction {
            kind,
            info: AuctionInfo {
                name: info.name,
                last_bid: None,
                start: info.start,
                end: info.end,
                owner: caller,
                token_id: info.token_id,
                minimal_bid: info.minimal_bid,
            },
        };
        self.store.insert(id, auction);
        self.store.index_by_end(end, id);
        proof {
            lemma_created_consistent(old(self)@, kind, caller, info@);
        }
        let mut effects: Vec<Effect> = Vec::new();
        effects.push(Effect::ToggleLock { account: caller, token });
        assert(effects@ =~= seq![Effect::ToggleLock { account: caller, token }]);
        Ok((id, effects))
    }

    /// Puts the bid of `bidder` in front in the auction `id` of kind `kind`,
    /// at height `now`.
    ///
    /// The bidder must not be the owner, the height has to lie after the
    /// start and before the end, and the bid has to reach the least amount
    /// asked for and to beat the bid that leads. Then the bid leads, the least
    /// amount for the next bid lies a step above it, and a bid that comes late
    /// moves the end of the auction, in the index too. Handed back is what the
    /// ledger has to do: let go of the lock of the bid that led, and hold the
    /// new bid. A call that is refused changes nothing.
    pub fn bid_value(
        &mut self,
        kind: AuctionType,
        now: BlockNumber,
        bidder: AccountId,
        id: AuctionId,
        value: Balance,
    ) -> (r: Result<Vec<Effect>, DispatchError>)
        requires
            old(self).wf(),
        ensures
            final(self).wf(),
            bids(old(self)@, final(self)@, kind, now, bidder, id, value, r),
    {
        let auction = match self.store.get(id) {
            Some(auction) => auction,
            None => {
                return Err(DispatchError::Auction(Error::AuctionNotExist));
            },
        };
        if auction.kind != kind {
            return Err(DispatchError::Auction(Error::AuctionNotExist));
        }
        let info = auction.info;
        if bidder == info.owner {
            return Err(DispatchError::Auction(Error::BidOnOwnAuction));
        }
        if now <= info.start {
            return Err(DispatchError::Auction(Error::AuctionNotStarted));
        }
        if now >= info.end {
            return Err(DispatchError::Auction(Error::AuctionAlreadyConcluded));
        }
        if value < info.minimal_bid {
            return Err(DispatchError::Auction(Error::InvalidBidPrice));
        }
        let mut effects: Vec<Effect> = Vec::new();
        match info.last_bid {
            Some((leader, leading)) => {
                if value <= leading {
                    return Err(DispatchError::Auction(Error::InvalidBidPrice));
                }
                effects.push(Effect::RemoveLock { auction: id, account: leader });
            },
            None => {
                if value == 0 {
                    return Err(DispatchError::Auction(Error::InvalidBidPrice));
                }
            },
        }
        effects.push(Effect::SetLock { auction: id, account: bidder, amount: value });
        let minimal_bid_step = bid_step(value);
        let minimal_bid = match value.checked_add(minimal_bid_step) {
            Some(least) => least,
            None => {
                return Err(DispatchError::Auction(Error::BidOverflow));
            },
        };
        let time_left = info.end - now;
        let end = if time_left < BID_ADD_BLOCKS {
            match now.checked_add(BID_ADD_BLOCKS) {
                Some(end) => end,
                None => {
                    return Err(DispatchError::Auction(Error::TimeOverflow));
                },
            }
        } else {
            info.end
        };
        let old_end = info.end;
        let updated = Auction {
            kind: auction.kind,
            info: AuctionInfo {
                name: info.name,
                last_bid: Some((bidder, value)),
                start: info.start,
                end,
                owner: info.owner,
                token_id: info.token_id,
                minimal_bid,
            },
        };
        proof {
            lemma_replaced_consistent(old(self)@, id, updated@);
        }
        self.store.insert(id, updated);
        if end != old_end {
            self.store.unindex(old_end, id);
            self.store.index_by_end(end, id);
        }
        assert(effects@ =~= bid_effects(
            id,
            old(self)@.auctions[id].info.last_bid,
            bidder,
            value,
        ));
        Ok(effects)
    }

    /// Withdraws the auction `id` of kind `kind`, at height `now`.
    ///
    /// The auction must not have started, and the registry has to hold the
    /// token as the owner's. Then the auction leaves the table and the index;
    /// handed back is what is left to do, unlocking the token. A call that is
    /// refused changes nothing.
    pub fn delete_auction(
        &mut self,
        kind: AuctionType,
        now: BlockNumber,
        id: AuctionId,
        entry: &TokenEntry,
    ) -> (r: Result<Vec<Effect>, DispatchError>)
        requires
            old(self).wf(),
        ensures
            final(self).wf(),
            withdraws(old(self)@, final(self)@, kind, now, id, *entry, r),
    {
        let auction = match self.store.get(id) {
            Some(auction) => auction,
            None => {
                return Err(DispatchError::Auction(Error::AuctionNotExist));
            },
        };
        if auction.kind != kind {
            return Err(DispatchError::Auction(Error::AuctionNotExist));
        }
        if now >= auction.info.start {
            return Err(DispatchError::Auction(Error::AuctionAlreadyStarted));
        }
        let outcome = settle(id, &auction.info, entry);
        match outcome.failure {
            Some(e) => {
                return Err(DispatchError::Nft(e));
            },
            None => {},
        }
        let mut effects: Vec<Effect> = Vec::new();
        if outcome.locked {
            effects.push(
                Effect::ToggleLock { account: auction.info.owner, token: auction.info.token_id },
            );
        }
        proof {
            lemma_cancelled_consistent(old(self)@, id);
        }
        self.store.remove(id);
        self.store.unindex(auction.info.end, id);
        assert(effects@ =~= release_effects(
            old(self)@.auctions[id].info.owner,
            old(self)@.auctions[id].info.token_id,
            *entry,
        ));
        Ok(effects)
    }

    /// Puts `info` in the place of the auction `id` of kind `kind`, as it
    /// stands: nothing in it is checked. The index follows the new end.
    pub fn replace_auction(&mut self, kind: AuctionType, id: AuctionId, info: AuctionInfo) -> (r:
        Result<(), DispatchError>)
        requires
            old(self).wf(),
        ensures
            final(self).wf(),
            replaces(old(self)@, final(self)@, kind, id, info@, r),
    {
        let auction = match self.store.get(id) {
            Some(auction) => auction,
            None => {
                return Err(DispatchError::Auction(Error::AuctionNotExist));
            },
        };
        if auction.kind != kind {
            return Err(DispatchError::Auction(Error::AuctionNotExist));
        }
        let old_end = auction.info.end;
        let end = info.end;
        let updated = Auction { kind: auction.kind, info };
        proof {
            lemma_replaced_consistent(old(self)@, id, updated@);
        }
        match self.store.update_if_present(id, updated) {
            Ok(()) => {},
            Err(e) => {
                return Err(DispatchError::Auction(e));
            },
        }
        if end != old_end {
            self.store.unindex(old_end, id);
            self.store.index_by_end(end, id);
        }
        Ok(())
    }

    /// Settles every auction that is due at `now`, of whatever kind, in the
    /// order of the index.
    ///
    /// `entries` holds what the registry holds for the token of each, in the
    /// same order as [`Pallet::auction_end_time`] lists the auctions; an
    /// auction without an entry is settled as if the registry held nothing
    /// for its token. Each auction leaves the table and the index, whether or
    /// not its token can be given back, and nothing is left due at `now`.
    /// Handed back is how each auction ended; [`Settlement::effects`] says what
    /// that asks of the host.
    pub fn settle_due(&mut self, now: BlockNumber, entries: &Vec<TokenEntry>) -> (done: Vec<
        Settlement,
    >)
        requires
            old(self).wf(),
        ensures
            final(self).wf(),
            settles(old(self)@, final(self)@, now, entries@, done@),
    {
        let ghost before = self@;
        let ids = self.store.drain_due(now);
        let mut done: Vec<Settlement> = Vec::new();
        let mut i: usize = 0;
        while i < ids.len()
            invariant
                i <= ids@.len(),
                before.consistent(),
                ids@ == before.due(now),
                self.store@.next_id == before.next_id,
                self.store@.ends == before.ends.remove(now),
                forall|id: AuctionId| #[trigger]
                    self.store@.auctions.contains_key(id) <==> before.auctions.contains_key(id)
                        && !ids@.take(i as int).contains(id),
                forall|id: AuctionId| #[trigger]
                    self.store@.auctions.contains_key(id) ==> self.store@.auctions[id]
                        == before.auctions[id],
                done@.len() == i,
                forall|j: int|
                    0 <= j < i ==> #[trigger] done@[j] == settlements(before, now, entries@)[j],
            decreases ids@.len() - i,
        {
            let id = ids[i];
            proof {
                assert(before.due(now).contains(ids@[i as int]));
                assert(before.ends.contains_key(now));
                assert(ids@.no_duplicates());
                if ids@.take(i as int).contains(id) {
                    let j = ids@.take(i as int).index_of(id);
                    assert(0 <= j < i && ids@.take(i as int)[j] == id);
                    assert(ids@[j] == ids@[i as int]);
                }
            }
            let entry = if i < entries.len() {
                entries[i]
            } else {
                TokenEntry { class: None, token: None }
            };
            assert(entry == entry_at(entries@, i as int));
            match self.store.remove(id) {
                Some(auction) => {
                    done.push(settle(id, &auction.info, &entry));
                },
                None => {},
            }
            proof {
                let sooner = ids@.take(i as int);
                let later = ids@.take(i as int + 1);
                assert forall|other: AuctionId| #[trigger]
                    later.contains(other) <==> sooner.contains(other) || other == id by {
                    if sooner.contains(other) {
                        let j = sooner.index_of(other);
                        assert(0 <= j < i && sooner[j] == other);
                        assert(later[j] == other);
                    }
                    if other == id {
                        assert(later[i as int] == id);
                    }
                    if later.contains(other) {
                        let j = later.index_of(other);
                        assert(0 <= j <= i && later[j] == other);
                        if j < i {
                            assert(sooner[j] == other);
                        }
                    }
                }
            }
            i = i + 1;
        }
        proof {
            assert(ids@.take(i as int) =~= ids@);
            assert(self.store@.auctions =~= before.concluded(now).auctions);
            assert(done@ =~= settlements(before, now, entries@));
            lemma_concluded_consistent(before, now);
        }
        done
    }

    /// The auction under `id`, where it is of kind `kind`.
    pub fn auction(&self, kind: AuctionType, id: AuctionId) -> (r: Option<AuctionInfo>)
        ensures
            match r {
                Some(info) => self@.of_kind(kind, id) && info@ == self@.auctions[id].info,
                None => !self@.of_kind(kind, id),
            },
    {
        match self.store.get(id) {
            Some(auction) => if auction.kind == kind {
                Some(auction.info)
            } else {
                None
            },
            None => None,
        }
    }

    /// The English auction under `id`.
    pub fn english_auctions(&self, id: AuctionId) -> (r: Option<EnglishAuctionInfo>)
        ensures
            match r {
                Some(info) => self@.of_kind(AuctionType::English, id) && info@
                    == self@.auctions[id].info,
                None => !self@.of_kind(AuctionType::English, id),
            },
    {
        self.auction(AuctionType::English, id)
    }

    /// The candle auction under `id`.
    pub fn candle_auctions(&self, id: AuctionId) -> (r: Option<CandleAuctionInfo>)
        ensures
            match r {
                Some(info) => self@.of_kind(AuctionType::Candle, id) && info@
                    == self@.auctions[id].info,
                None => !self@.of_kind(AuctionType::Candle, id),
            },
    {
        self.auction(AuctionType::Candle, id)
    }

    /// The top-up auction under `id`.
    pub fn topup_auctions(&self, id: AuctionId) -> (r: Option<TopUpAuctionInfo>)
        ensures
            match r {
                Some(info) => self@.of_kind(AuctionType::TopUp, id) && info@
                    == self@.auctions[id].info,
                None => !self@.of_kind(AuctionType::TopUp, id),
            },
    {
        self.auction(AuctionType::TopUp, id)
    }

    /// The number that the next auction gets.
    pub fn auctions_index(&self) -> (id: AuctionId)
        ensures
            id == self@.next_id,
    {
        self.store.next_id()
    }

    /// The numbers of the auctions that are due at `height`, in the order in
    /// which they will be settled.
    pub fn auction_end_time(&self, height: BlockNumber) -> (ids: Vec<AuctionId>)
        ensures
            ids@ == self@.due(height),
    {
        self.store.due(height)
    }

    /// Opens an auction of kind `kind` for the account that signed the call,
    /// and reports it.
    fn dispatch_create(
        &mut self,
        kind: AuctionType,
        now: BlockNumber,
        origin: RawOrigin,
        auction_info: AuctionInfo,
        entry: &TokenEntry,
    ) -> (r: Result<(Event, Vec<Effect>), DispatchError>)
        requires
            old(self).wf(),
        ensures
            final(self).wf(),
            opens(old(self)@, final(self)@, kind, now, origin, auction_info@, *entry, r),
    {
        let sender = match ensure_signed(origin) {
            Ok(sender) => sender,
            Err(_) => {
                return Err(DispatchError::BadOrigin);
            },
        };
        match self.create_auction(kind, now, sender, auction_info, entry) {
            Ok((new_auction_id, effects)) => Ok(
                (report_created(kind, sender, new_auction_id), effects),
            ),
            Err(e) => Err(e),
        }
    }

    /// Bids for the account that signed the call, and reports the bid.
    fn dispatch_bid(
        &mut self,
        kind: AuctionType,
        now: BlockNumber,
        origin: RawOrigin,
        id: AuctionId,
        value: Balance,
    ) -> (r: Result<(Event, Vec<Effect>), DispatchError>)
        requires
            old(self).wf(),
        ensures
            final(self).wf(),
            offers(old(self)@, final(self)@, kind, now, origin, id, value, r),
    {
        let sender = match ensure_signed(origin) {
            Ok(sender) => sender,
            Err(_) => {
                return Err(DispatchError::BadOrigin);
            },
        };
        match self.bid_value(kind, now, sender, id, value) {
            Ok(effects) => Ok((Event::Bid(id, sender, value), effects)),
            Err(e) => Err(e),
        }
    }

    /// Withdraws an auction at the call of any account that signed, and
    /// reports it.
    fn dispatch_delete(
        &mut self,
        kind: AuctionType,
        now: BlockNumber,
        origin: RawOrigin,
        id: AuctionId,
        entry: &TokenEntry,
    ) -> (r: Result<(Event, Vec<Effect>), DispatchError>)
        requires
            old(self).wf(),
        ensures
            final(self).wf(),
            removes(old(self)@, final(self)@, kind, now, origin, id, *entry, r),
    {
        match ensure_signed(origin) {
            Ok(_) => {},
            Err(_) => {
                return Err(DispatchError::BadOrigin);
            },
        };
        match self.delete_auction(kind, now, id, entry) {
            Ok(effects) => Ok((Event::AuctionRemoved(id), effects)),
            Err(e) => Err(e),
        }
    }

    /// Opens an English auction for the account that signed the call.
    /// Handed back are the report of the new auction and what is left to do.
    pub fn english_create_auction(
        &mut self,
        now: BlockNumber,
        origin: RawOrigin,
        auction_info: EnglishAuctionInfo,
        entry: &TokenEntry,
    ) -> (r: Result<(Event, Vec<Effect>), DispatchError>)
        requires
            old(self).wf(),
        ensures
            final(self).wf(),
            opens(old(self)@, final(self)@, AuctionType::English, now, origin, auction_info@, *entry, r),
    {
        self.dispatch_create(AuctionType::English, now, origin, auction_info, entry)
    }

    /// Bids `value` in the English auction `id` for the account that signed
    /// the call. Handed back are the report of the bid and what is left to do.
    pub fn english_bid_value(
        &mut self,
        now: BlockNumber,
        origin: RawOrigin,
        id: AuctionId,
        value: Balance,
    ) -> (r: Result<(Event, Vec<Effect>), DispatchError>)
        requires
            old(self).wf(),
        ensures
            final(self).wf(),
            offers(old(self)@, final(self)@, AuctionType::English, now, origin, id, value, r),
    {
        self.dispatch_bid(AuctionType::English, now, origin, id, value)
    }

    /// Withdraws the English auction `id` at the call of any account that
    /// signed. Handed back are the report and what is left to do.
    pub fn english_delete_auction(
        &mut self,
        now: BlockNumber,
        origin: RawOrigin,
        id: AuctionId,
        entry: &TokenEntry,
    ) -> (r: Result<(Event, Vec<Effect>), DispatchError>)
        requires
            old(self).wf(),
        ensures
            final(self).wf(),
            removes(old(self)@, final(self)@, AuctionType::English, now, origin, id, *entry, r),
    {
        self.dispatch_delete(AuctionType::English, now, origin, id, entry)
    }

    /// Opens a candle auction for the account that signed the call.
    /// Handed back are the report of the new auction and what is left to do.
    pub fn candle_create_auction(
        &mut self,
        now: BlockNumber,
        origin: RawOrigin,
        auction_info: CandleAuctionInfo,
        entry: &TokenEntry,
    ) -> (r: Result<(Event, Vec<Effect>), DispatchError>)
        requires
            old(self).wf(),
        ensures
            final(self).wf(),
            opens(old(self)@, final(self)@, AuctionType::Candle, now, origin, auction_info@, *entry, r),
    {
        self.dispatch_create(AuctionType::Candle, now, origin, auction_info, entry)
    }

    /// Bids `value` in the candle auction `id` for the account that signed
    /// the call. Handed back are the report of the bid and what is left to do.
    pub fn candle_bid_value(
        &mut self,
        now: BlockNumber,
        origin: RawOrigin,
        id: AuctionId,
        value: Balance,
    ) -> (r: Result<(Event, Vec<Effect>), DispatchError>)
        requires
            old(self).wf(),
        ensures
            final(self).wf(),
            offers(old(self)@, final(self)@, AuctionType::Candle, now, origin, id, value, r),
    {
        self.dispatch_bid(AuctionType::Candle, now, origin, id, value)
    }

    /// Withdraws the candle auction `id` at the call of any account that
    /// signed. Handed back are the report and what is left to do.
    pub fn candle_delete_auction(
        &mut self,
        now: BlockNumber,
        origin: RawOrigin,
        id: AuctionId,
        entry: &TokenEntry,
    ) -> (r: Result<(Event, Vec<Effect>), DispatchError>)
        requires
            old(self).wf(),
        ensures
            final(self).wf(),
            removes(old(self)@, final(self)@, AuctionType::Candle, now, origin, id, *entry, r),
    {
        self.dispatch_delete(AuctionType::Candle, now, origin, id, entry)
    }

    /// Opens a top-up auction for the account that signed the call.
    /// Handed back are the report of the new auction and what is left to do.
    pub fn topup_create_auction(
        &mut self,
        now: BlockNumber,
        origin: RawOrigin,
        auction_info: TopUpAuctionInfo,
        entry: &TokenEntry,
    ) -> (r: Result<(Event, Vec<Effect>), DispatchError>)
        requires
            old(self).wf(),
        ensures
            final(self).wf(),
            opens(old(self)@, final(self)@, AuctionType::TopUp, now, origin, auction_info@, *entry, r),
    {
        self.dispatch_create(AuctionType::TopUp, now, origin, auction_info, entry)
    }

    /// Bids `value` in the top-up auction `id` for the account that signed
    /// the call. Handed back are the report of the bid and what is left to do.
    pub fn topup_bid_value(
        &mut self,
        now: BlockNumber,
        origin: RawOrigin,
        id: AuctionId,
        value: Balance,
    ) -> (r: Result<(Event, Vec<Effect>), DispatchError>)
        requires
            old(self).wf(),
        ensures
            final(self).wf(),
            offers(old(self)@, final(self)@, AuctionType::TopUp, now, origin, id, value, r),
    {
        self.dispatch_bid(AuctionType::TopUp, now, origin, id, value)
    }

    /// Withdraws the top-up auction `id` at the call of any account that
    /// signed. Handed back are the report and what is left to do.
    pub fn topup_delete_auction(
        &mut self,
        now: BlockNumber,
        origin: RawOrigin,
        id: AuctionId,
        entry: &TokenEntry,
    ) -> (r: Result<(Event, Vec<Effect>), DispatchError>)
        requires
            old(self).wf(),
        ensures
            final(self).wf(),
            removes(old(self)@, final(self)@, AuctionType::TopUp, now, origin, id, *entry, r),
    {
        self.dispatch_delete(AuctionType::TopUp, now, origin, id, entry)
    }

    /// What happens at the end of the block at height `now`: every auction
    /// that is due is settled, as [`Pallet::settle_due`] does it.
    pub fn on_finalize(&mut self, now: BlockNumber, entries: &Vec<TokenEntry>) -> (done: Vec<
        Settlement,
    >)
        requires
            old(self).wf(),
        ensures
            final(self).wf(),
            settles(old(self)@, final(self)@, now, entries@, done@),
    {
        self.settle_due(now, entries)
    }
}

impl<S: Store> EnglishAuction for Pallet<S> {
    open spec fn table(&self) -> StoreView {
        self@
    }

    open spec fn inv(&self) -> bool {
        self.wf()
    }

    fn new_auction(
        &mut self,
        now: BlockNumber,
        caller: AccountId,
        info: EnglishAuctionInfo,
        entry: &TokenEntry,
    ) -> (r: Result<(AuctionId, Vec<Effect>), DispatchError>) {
        self.create_auction(AuctionType::English, now, caller, info, entry)
    }

    fn update_auction(&mut self, id: AuctionId, info: EnglishAuctionInfo) -> (r: Result<
        (),
        DispatchError,
    >) {
        self.replace_auction(AuctionType::English, id, info)
    }

    fn remove_auction(&mut self, now: BlockNumber, id: AuctionId, entry: &TokenEntry) -> (r:
        Result<Vec<Effect>, DispatchError>) {
        self.delete_auction(AuctionType::English, now, id, entry)
    }

    fn bid(&mut self, now: BlockNumber, bidder: AccountId, id: AuctionId, value: Balance) -> (r:
        Result<Vec<Effect>, DispatchError>) {
        self.bid_value(AuctionType::English, now, bidder, id, value)
    }

    fn conclude_auction(&mut self, now: BlockNumber, entries: &Vec<TokenEntry>) -> (done: Vec<
        Settlement,
    >) {
        self.settle_due(now, entries)
    }

    fn check_new_auction(
        now: BlockNumber,
        caller: AccountId,
        info: &EnglishAuctionInfo,
        entry: &TokenEntry,
    ) -> (r: Result<(), DispatchError>) {
        check_new_auction(now, caller, info, entry)
    }
}

impl<S: Store> CandleAuction for Pallet<S> {
    open spec fn table(&self) -> StoreView {
        self@
    }

    open spec fn inv(&self) -> bool {
        self.wf()
    }

    fn new_auction(
        &mut self,
        now: BlockNumber,
        caller: AccountId,
        info: CandleAuctionInfo,
        entry: &TokenEntry,
    ) -> (r: Result<(AuctionId, Vec<Effect>), DispatchError>) {
        self.create_auction(AuctionType::Candle, now, caller, info, entry)
    }

    fn update_auction(&mut self, id: AuctionId, info: CandleAuctionInfo) -> (r: Result<
        (),
        DispatchError,
    >) {
        self.replace_auction(AuctionType::Candle, id, info)
    }

    fn remove_auction(&mut self, now: BlockNumber, id: AuctionId, entry: &TokenEntry) -> (r:
        Result<Vec<Effect>, DispatchError>) {
        self.delete_auction(AuctionType::Candle, now, id, entry)
    }

    fn bid(&mut self, now: BlockNumber, bidder: AccountId, id: AuctionId, value: Balance) -> (r:
        Result<Vec<Effect>, DispatchError>) {
        self.bid_value(AuctionType::Candle, now, bidder, id, value)
    }

    fn conclude_auction(&mut self, now: BlockNumber, entries: &Vec<TokenEntry>) -> (done: Vec<
        Settlement,
    >) {
        self.settle_due(now, entries)
    }

    fn check_new_auction(
        now: BlockNumber,
        caller: AccountId,
        info: &CandleAuctionInfo,
        entry: &TokenEntry,
    ) -> (r: Result<(), DispatchError>) {
        check_new_auction(now, caller, info, entry)
    }
}

impl<S: Store> TopUpAuction for Pallet<S> {
    open spec fn table(&self) -> StoreView {
        self@
    }

    open spec fn inv(&self) -> bool {
        self.wf()
    }

    fn new_auction(
        &mut self,
        now: BlockNumber,
        caller: AccountId,
        info: TopUpAuctionInfo,
        entry: &TokenEntry,
    ) -> (r: Result<(AuctionId, Vec<Effect>), DispatchError>) {
        self.create_auction(AuctionType::TopUp, now, caller, info, entry)
    }

    fn update_auction(&mut self, id: AuctionId, info: TopUpAuctionInfo) -> (r: Result<
        (),
        DispatchError,
    >) {
        self.replace_auction(AuctionType::TopUp, id, info)
    }

    fn remove_auction(&mut self, now: BlockNumber, id: AuctionId, entry: &TokenEntry) -> (r:
        Result<Vec<Effect>, DispatchError>) {
        self.delete_auction(AuctionType::TopUp, now, id, entry)
    }

    fn bid(&mut self, now: BlockNumber, bidder: AccountId, id: AuctionId, value: Balance) -> (r:
        Result<Vec<Effect>, DispatchError>) {
        self.bid_value(AuctionType::TopUp, now, bidder, id, value)
    }

    fn conclude_auction(&mut self, now: BlockNumber, entries: &Vec<TokenEntry>) -> (done: Vec<
        Settlement,
    >) {
        self.settle_due(now, entries)
    }

    fn check_new_auction(
        now: BlockNumber,
        caller: AccountId,
        info: &TopUpAuctionInfo,
        entry: &TokenEntry,
    ) -> (r: Result<(), DispatchError>) {
        check_new_auction(now, caller, info, entry)
    }
}

} // verus!
