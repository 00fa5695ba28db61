use std::collections::HashMap;

use pallet_auction::nft::{self, ClassInfo, TokenData, TokenEntry, TokenInfo};
use pallet_auction::{
    check_new_auction, AuctionInfo, AuctionStore, AuctionType, CandleAuction, DispatchError,
    Effect, EnglishAuction, EnglishAuctionInfo, Error, ErrorKind, Event, Pallet, RawOrigin,
    Settlement, TopUpAuction,
};

/// A host for the auction house: a registry, a ledger, and a clock.
struct Host {
    house: Pallet<AuctionStore>,
    now: u64,
    classes: HashMap<u64, ClassInfo>,
    tokens: HashMap<(u64, u64), TokenInfo>,
    locks: HashMap<(u64, u64), u128>,
    balances: HashMap<u64, u128>,
}

impl Host {
    fn new() -> Host {
        let mut balances = HashMap::new();
        balances.insert(200, 500);
        Host {
            house: Pallet::new(),
            now: 1,
            classes: HashMap::new(),
            tokens: HashMap::new(),
            locks: HashMap::new(),
            balances,
        }
    }

    fn entry(&self, token: (u64, u64)) -> TokenEntry {
        TokenEntry { class: self.classes.get(&token.0).copied(), token: self.tokens.get(&token).copied() }
    }

    fn balance(&self, who: u64) -> u128 {
        self.balances.get(&who).copied().unwrap_or(0)
    }

    fn locked_funds(&self, auction: u64, who: u64) -> Option<u128> {
        self.locks.get(&(auction, who)).copied()
    }

    fn create_class(&mut self, origin: RawOrigin, metadata: Vec<u8>, data: u32) -> Result<u64, DispatchError> {
        let class_id = self.classes.len() as u64;
        let (class, event) = nft::Pallet::create_class(origin, metadata, data, class_id)?;
        assert_eq!(event, nft::Event::NFTTokenClassCreated(class.owner, class_id));
        self.classes.insert(class_id, ClassInfo { owner: class.owner, total_issuance: 0 });
        Ok(class_id)
    }

    fn mint(&mut self, origin: RawOrigin, class_id: u64, metadata: Vec<u8>, data: TokenData) -> Result<u64, DispatchError> {
        let class = self.classes.get(&class_id).copied();
        let token_id = class.map(|class| class.total_issuance).unwrap_or(0);
        let (token, event) = nft::Pallet::mint(origin, class_id, metadata, data, class, token_id)?;
        assert_eq!(event, nft::Event::NFTTokenMinted(token.owner, class_id, token_id));
        let class = self.classes.get_mut(&class_id).unwrap();
        class.total_issuance += 1;
        self.tokens.insert((class_id, token_id), TokenInfo { owner: token.owner, data: token.data });
        Ok(token_id)
    }

    fn perform(&mut self, effects: &[Effect]) {
        for effect in effects {
            match *effect {
                Effect::ToggleLock { account, token } => {
                    let entry = self.entry(token);
                    let (after, _event) = nft::Pallet::toggle_lock(&account, token, &entry).unwrap();
                    if let Some(info) = after.token {
                        self.tokens.insert(token, info);
                    }
                }
                Effect::TransferToken { from, to, token } => {
                    let entry = self.entry(token);
                    let (after, _event) =
                        nft::Pallet::transfer(RawOrigin::Signed(from), to, token, &entry).unwrap();
                    self.tokens.insert(token, after.token.unwrap());
                }
                Effect::SetLock { auction, account, amount } => {
                    self.locks.insert((auction, account), amount);
                }
                Effect::RemoveLock { auction, account } => {
                    self.locks.remove(&(auction, account));
                }
                Effect::TransferCurrency { from, to, amount } => {
                    let available = self.balance(from);
                    assert!(available >= amount);
                    self.balances.insert(from, available - amount);
                    let held = self.balance(to);
                    self.balances.insert(to, held + amount);
                }
            }
        }
    }

    fn english_create_auction(&mut self, origin: RawOrigin, info: EnglishAuctionInfo) -> Result<Event, DispatchError> {
        let entry = self.entry(info.token_id);
        let (event, effects) = self.house.english_create_auction(self.now, origin, info, &entry)?;
        self.perform(&effects);
        Ok(event)
    }

    fn english_bid_value(&mut self, origin: RawOrigin, id: u64, value: u128) -> Result<Event, DispatchError> {
        let (event, effects) = self.house.english_bid_value(self.now, origin, id, value)?;
        self.perform(&effects);
        Ok(event)
    }

    fn english_delete_auction(&mut self, origin: RawOrigin, id: u64) -> Result<Event, DispatchError> {
        let entry = match self.house.english_auctions(id) {
            Some(info) => self.entry(info.token_id),
            None => TokenEntry { class: None, token: None },
        };
        let (event, effects) = self.house.english_delete_auction(self.now, origin, id, &entry)?;
        self.perform(&effects);
        Ok(event)
    }

    fn on_finalize(&mut self, now: u64) -> Vec<Settlement> {
        let due = self.house.auction_end_time(now);
        let mut entries = Vec::new();
        for id in due {
            let info = self.house.auction(AuctionType::English, id)
                .or_else(|| self.house.auction(AuctionType::Candle, id))
                .or_else(|| self.house.auction(AuctionType::TopUp, id))
                .unwrap();
            entries.push(self.entry(info.token_id));
        }
        let done = self.house.on_finalize(now, &entries);
        for settlement in &done {
            self.perform(&settlement.effects());
        }
        done
    }
}

fn create_nft(host: &mut Host) {
    assert!(host.create_class(RawOrigin::Signed(100), "Class1".as_bytes().to_vec(), 0).is_ok());
    assert!(host
        .mint(RawOrigin::Signed(100), 0, "Class1_mint1".as_bytes().to_vec(), TokenData { locked: false })
        .is_ok());
}

fn aukce1() -> EnglishAuctionInfo {
    EnglishAuctionInfo {
        name: "Aukce1".as_bytes().to_vec(),
        last_bid: None,
        start: 1,
        end: 20,
        owner: 100,
        token_id: (0, 0),
        minimal_bid: 50,
    }
}

/// A host at height 1 with the token (0, 0) of account 100 up for auction 0.
fn host_with_auction() -> Host {
    let mut host = Host::new();
    create_nft(&mut host);
    host.balances.insert(300, 500);
    assert_eq!(
        host.english_create_auction(RawOrigin::Signed(100), aukce1()),
        Ok(Event::EnglishAuctionCreated(100, 0))
    );
    host
}

fn free_token(owner: u64) -> TokenEntry {
    TokenEntry {
        class: Some(ClassInfo { owner, total_issuance: 1 }),
        token: Some(TokenInfo { owner, data: TokenData { locked: false } }),
    }
}

fn held_token(owner: u64) -> TokenEntry {
    TokenEntry {
        class: Some(ClassInfo { owner, total_issuance: 1 }),
        token: Some(TokenInfo { owner, data: TokenData { locked: true } }),
    }
}

fn refused<T: std::fmt::Debug>(r: Result<T, DispatchError>) -> Error {
    match r {
        Err(DispatchError::Auction(e)) => e,
        other => panic!("expected a refusal by the auction rules, got {:?}", other),
    }
}

#[test]
fn can_create_english_auction() {
    let mut host = Host::new();
    let auction_info = EnglishAuctionInfo {
        name: "Aukce1".as_bytes().to_vec(),
        last_bid: None,
        start: 1,
        end: 20,
        owner: 100,
        token_id: (0, 0),
        minimal_bid: 50,
    };
    assert_eq!(
        host.english_create_auction(RawOrigin::Signed(100), auction_info.clone()),
        Err(DispatchError::Auction(Error::NotATokenOwner))
    );
    assert_eq!(host.house.auctions_index(), 0);
    assert_eq!(host.house.english_auctions(0), None);
    assert!(host.house.auction_end_time(20).is_empty());
    create_nft(&mut host);
    assert!(host.english_create_auction(RawOrigin::Signed(100), auction_info).is_ok());
}

#[test]
fn creating_an_auction_returns_id_zero_and_locks_the_token() {
    let mut host = Host::new();
    create_nft(&mut host);
    assert_eq!(nft::Pallet::is_locked(&host.entry((0, 0))), Ok(false));
    let entry = host.entry((0, 0));
    let r = host.house.english_create_auction(1, RawOrigin::Signed(100), aukce1(), &entry);
    let (event, effects) = r.unwrap();
    assert_eq!(event, Event::EnglishAuctionCreated(100, 0));
    assert_eq!(effects, vec![Effect::ToggleLock { account: 100, token: (0, 0) }]);
    host.perform(&effects);
    assert_eq!(nft::Pallet::is_locked(&host.entry((0, 0))), Ok(true));
    assert!(nft::Pallet::is_owner(&100, &host.entry((0, 0))));
    let kept = host.house.english_auctions(0).unwrap();
    assert_eq!(kept, aukce1());
    assert_eq!(host.house.auctions_index(), 1);
    assert_eq!(host.house.auction_end_time(20), vec![0]);
}

#[test]
fn a_bid_below_the_minimal_bid_is_rejected() {
    let mut host = host_with_auction();
    host.now = 5;
    let r = host.english_bid_value(RawOrigin::Signed(200), 0, 40);
    assert_eq!(r, Err(DispatchError::Auction(Error::InvalidBidPrice)));
    assert_eq!(Error::InvalidBidPrice.kind(), ErrorKind::InvalidBid);
    assert_eq!(host.house.english_auctions(0).unwrap(), aukce1());
    assert_eq!(host.locked_funds(0, 200), None);
}

#[test]
fn a_bid_at_the_minimal_bid_is_accepted() {
    let mut host = host_with_auction();
    host.now = 5;
    let (event, effects) = host.house.english_bid_value(5, RawOrigin::Signed(200), 0, 50).unwrap();
    assert_eq!(event, Event::Bid(0, 200, 50));
    assert_eq!(effects, vec![Effect::SetLock { auction: 0, account: 200, amount: 50 }]);
    host.perform(&effects);
    let kept = host.house.english_auctions(0).unwrap();
    assert_eq!(kept.last_bid, Some((200, 50)));
    assert_eq!(kept.minimal_bid, 55);
    assert_eq!(kept.end, 20);
    assert_eq!(host.locked_funds(0, 200), Some(50));
}

#[test]
fn a_late_bid_extends_the_auction() {
    let mut host = host_with_auction();
    host.now = 5;
    assert!(host.english_bid_value(RawOrigin::Signed(200), 0, 50).is_ok());
    host.now = 19;
    let (event, effects) = host.house.english_bid_value(19, RawOrigin::Signed(300), 0, 60).unwrap();
    assert_eq!(event, Event::Bid(0, 300, 60));
    assert_eq!(
        effects,
        vec![
            Effect::RemoveLock { auction: 0, account: 200 },
            Effect::SetLock { auction: 0, account: 300, amount: 60 },
        ]
    );
    host.perform(&effects);
    let kept = host.house.english_auctions(0).unwrap();
    assert_eq!(kept.end, 29);
    assert_eq!(kept.last_bid, Some((300, 60)));
    assert_eq!(kept.minimal_bid, 66);
    assert_eq!(host.locked_funds(0, 200), None);
    assert_eq!(host.locked_funds(0, 300), Some(60));
    assert!(host.house.auction_end_time(20).is_empty());
    assert_eq!(host.house.auction_end_time(29), vec![0]);
}

#[test]
fn settling_hands_over_token_and_funds() {
    let mut host = host_with_auction();
    host.now = 5;
    assert!(host.english_bid_value(RawOrigin::Signed(200), 0, 50).is_ok());
    host.now = 19;
    assert!(host.english_bid_value(RawOrigin::Signed(300), 0, 60).is_ok());
    assert!(host.on_finalize(20).is_empty());
    let done = host.on_finalize(29);
    assert_eq!(
        done,
        vec![Settlement {
            id: 0,
            owner: 100,
            token_id: (0, 0),
            last_bid: Some((300, 60)),
            locked: true,
            failure: None,
        }]
    );
    assert_eq!(
        done[0].effects(),
        vec![
            Effect::ToggleLock { account: 100, token: (0, 0) },
            Effect::TransferToken { from: 100, to: 300, token: (0, 0) },
            Effect::RemoveLock { auction: 0, account: 300 },
            Effect::TransferCurrency { from: 300, to: 100, amount: 60 },
        ]
    );
    assert_eq!(host.house.english_auctions(0), None);
    assert!(host.house.auction_end_time(29).is_empty());
    assert!(nft::Pallet::is_owner(&300, &host.entry((0, 0))));
    assert_eq!(nft::Pallet::is_locked(&host.entry((0, 0))), Ok(false));
    assert_eq!(host.balance(100), 60);
    assert_eq!(host.balance(300), 440);
    assert_eq!(host.balance(200), 500);
    assert_eq!(host.locked_funds(0, 300), None);
    assert!(host.locks.is_empty());
}

#[test]
fn a_started_auction_cannot_be_removed() {
    let mut host = host_with_auction();
    host.now = 10;
    let r = host.english_delete_auction(RawOrigin::Signed(100), 0);
    assert_eq!(r, Err(DispatchError::Auction(Error::AuctionAlreadyStarted)));
    assert_eq!(Error::AuctionAlreadyStarted.kind(), ErrorKind::StateConflict);
    assert_eq!(host.house.english_auctions(0).unwrap(), aukce1());
    assert_eq!(nft::Pallet::is_locked(&host.entry((0, 0))), Ok(true));
    host.now = 1;
    let r = host.english_delete_auction(RawOrigin::Signed(100), 0);
    assert_eq!(r, Err(DispatchError::Auction(Error::AuctionAlreadyStarted)));
}

#[test]
fn an_auction_can_be_removed_before_it_starts() {
    let mut host = Host::new();
    create_nft(&mut host);
    let mut info = aukce1();
    info.start = 5;
    assert!(host.english_create_auction(RawOrigin::Signed(100), info).is_ok());
    host.now = 4;
    let entry = host.entry((0, 0));
    let (event, effects) = host.house.english_delete_auction(4, RawOrigin::Signed(7), 0, &entry).unwrap();
    assert_eq!(event, Event::AuctionRemoved(0));
    assert_eq!(effects, vec![Effect::ToggleLock { account: 100, token: (0, 0) }]);
    host.perform(&effects);
    assert_eq!(host.house.english_auctions(0), None);
    assert!(host.house.auction_end_time(20).is_empty());
    assert_eq!(nft::Pallet::is_locked(&host.entry((0, 0))), Ok(false));
    assert!(nft::Pallet::is_owner(&100, &host.entry((0, 0))));
    assert!(host.on_finalize(20).is_empty());
    assert_eq!(host.house.auctions_index(), 1);
}

#[test]
fn settling_twice_finds_nothing_the_second_time() {
    let mut host = host_with_auction();
    let first = host.on_finalize(20);
    assert_eq!(first.len(), 1);
    assert_eq!(first[0].last_bid, None);
    assert_eq!(first[0].effects(), vec![Effect::ToggleLock { account: 100, token: (0, 0) }]);
    assert!(nft::Pallet::is_owner(&100, &host.entry((0, 0))));
    assert_eq!(nft::Pallet::is_locked(&host.entry((0, 0))), Ok(false));
    let second = host.on_finalize(20);
    assert!(second.is_empty());
    assert_eq!(nft::Pallet::is_locked(&host.entry((0, 0))), Ok(false));
    host.now = 20;
    assert_eq!(
        host.english_bid_value(RawOrigin::Signed(200), 0, 50),
        Err(DispatchError::Auction(Error::AuctionNotExist))
    );
}

#[test]
fn the_owner_is_the_caller_and_not_what_the_caller_says() {
    let mut host = Host::new();
    create_nft(&mut host);
    let mut info = aukce1();
    info.owner = 999;
    info.last_bid = Some((5, 1_000));
    assert!(host.english_create_auction(RawOrigin::Signed(100), info).is_ok());
    let kept = host.house.english_auctions(0).unwrap();
    assert_eq!(kept.owner, 100);
    assert_eq!(kept.last_bid, None);
    let mut spoofed = aukce1();
    spoofed.owner = 100;
    spoofed.token_id = (0, 0);
    assert_eq!(
        host.english_create_auction(RawOrigin::Signed(999), spoofed),
        Err(DispatchError::Auction(Error::NotATokenOwner))
    );
}

#[test]
fn new_auctions_are_checked_in_order() {
    let token = free_token(100);
    let mut info = aukce1();
    info.start = 4;
    info.end = 14;
    info.name = Vec::new();
    assert_eq!(refused(check_new_auction(5, 1, &info, &token)), Error::AuctionStartTimeAlreadyPassed);
    assert_eq!(refused(check_new_auction(4, 1, &info, &token)), Error::InvalidTimeConfiguration);
    info.end = 15;
    assert_eq!(refused(check_new_auction(4, 1, &info, &token)), Error::EmptyAuctionName);
    info.name = vec![b'a'];
    assert_eq!(refused(check_new_auction(4, 1, &info, &token)), Error::NotATokenOwner);
    assert_eq!(refused(check_new_auction(4, 100, &info, &held_token(100))), Error::TokenLocked);
    assert_eq!(check_new_auction(4, 100, &info, &token), Ok(()));
    info.start = u64::MAX - 3;
    info.end = u64::MAX;
    assert_eq!(refused(check_new_auction(4, 100, &info, &token)), Error::InvalidTimeConfiguration);
    assert_eq!(Error::AuctionStartTimeAlreadyPassed.kind(), ErrorKind::InvalidConfiguration);
    assert_eq!(Error::InvalidTimeConfiguration.kind(), ErrorKind::InvalidConfiguration);
    assert_eq!(Error::EmptyAuctionName.kind(), ErrorKind::InvalidConfiguration);
    assert_eq!(Error::NotATokenOwner.kind(), ErrorKind::PermissionDenied);
    assert_eq!(Error::TokenLocked.kind(), ErrorKind::StateConflict);
}

#[test]
fn bids_are_checked_in_order() {
    let mut host = host_with_auction();
    let mut bid = |now: u64, who: u64, id: u64, value: u128| {
        host.now = now;
        host.english_bid_value(RawOrigin::Signed(who), id, value)
    };
    assert_eq!(refused(bid(5, 200, 1, 50)), Error::AuctionNotExist);
    assert_eq!(refused(bid(1, 100, 0, 40)), Error::BidOnOwnAuction);
    assert_eq!(refused(bid(1, 200, 0, 40)), Error::AuctionNotStarted);
    assert_eq!(refused(bid(20, 200, 0, 40)), Error::AuctionAlreadyConcluded);
    assert_eq!(refused(bid(21, 200, 0, 50)), Error::AuctionAlreadyConcluded);
    assert_eq!(refused(bid(2, 200, 0, 49)), Error::InvalidBidPrice);
    assert!(bid(2, 200, 0, 50).is_ok());
    assert_eq!(refused(bid(3, 300, 0, 54)), Error::InvalidBidPrice);
    assert!(bid(3, 300, 0, 55).is_ok());
    assert_eq!(Error::AuctionNotExist.kind(), ErrorKind::NotFound);
    assert_eq!(Error::BidOnOwnAuction.kind(), ErrorKind::PermissionDenied);
    assert_eq!(Error::AuctionNotStarted.kind(), ErrorKind::StateConflict);
    assert_eq!(Error::AuctionAlreadyConcluded.kind(), ErrorKind::StateConflict);
}

#[test]
fn an_unsigned_call_is_refused() {
    let mut host = host_with_auction();
    host.now = 5;
    assert_eq!(host.english_bid_value(RawOrigin::Root, 0, 50), Err(DispatchError::BadOrigin));
    assert_eq!(host.english_bid_value(RawOrigin::Unsigned, 0, 50), Err(DispatchError::BadOrigin));
    assert_eq!(host.english_delete_auction(RawOrigin::Unsigned, 0), Err(DispatchError::BadOrigin));
    assert_eq!(
        host.english_create_auction(RawOrigin::Unsigned, aukce1()),
        Err(DispatchError::BadOrigin)
    );
    assert_eq!(host.house.auctions_index(), 1);
}

#[test]
fn the_first_bid_has_to_be_something() {
    let mut host = Host::new();
    create_nft(&mut host);
    let mut info = aukce1();
    info.minimal_bid = 0;
    assert!(host.english_create_auction(RawOrigin::Signed(100), info).is_ok());
    host.now = 2;
    assert_eq!(refused(host.english_bid_value(RawOrigin::Signed(200), 0, 0)), Error::InvalidBidPrice);
    assert!(host.english_bid_value(RawOrigin::Signed(200), 0, 1).is_ok());
    let kept = host.house.english_auctions(0).unwrap();
    assert_eq!(kept.minimal_bid, 2);
    assert_eq!(refused(host.english_bid_value(RawOrigin::Signed(300), 0, 1)), Error::InvalidBidPrice);
}

#[test]
fn a_bid_has_to_beat_the_leading_bid_even_where_the_minimal_bid_was_lowered() {
    let mut host = host_with_auction();
    host.now = 5;
    assert!(host.english_bid_value(RawOrigin::Signed(200), 0, 50).is_ok());
    let mut lowered = host.house.english_auctions(0).unwrap();
    lowered.minimal_bid = 10;
    assert_eq!(EnglishAuction::update_auction(&mut host.house, 0, lowered), Ok(()));
    assert_eq!(refused(host.english_bid_value(RawOrigin::Signed(300), 0, 50)), Error::InvalidBidPrice);
    assert_eq!(refused(host.english_bid_value(RawOrigin::Signed(300), 0, 20)), Error::InvalidBidPrice);
    assert!(host.english_bid_value(RawOrigin::Signed(300), 0, 51).is_ok());
}

#[test]
fn bids_rise_and_the_floor_stays_above_the_bid() {
    let mut host = host_with_auction();
    host.balances.insert(200, u128::MAX);
    host.balances.insert(300, u128::MAX);
    host.now = 2;
    let mut last = 0u128;
    let mut value = 50u128;
    for round in 0..40u64 {
        let who = if round % 2 == 0 { 200 } else { 300 };
        assert!(host.english_bid_value(RawOrigin::Signed(who), 0, value).is_ok());
        let kept = host.house.english_auctions(0).unwrap();
        assert!(value > last);
        assert!(kept.minimal_bid > value);
        assert_eq!(kept.minimal_bid, value + (value * 10 + 99) / 100);
        assert_eq!(kept.last_bid, Some((who, value)));
        last = value;
        value = kept.minimal_bid;
    }
}

#[test]
fn one_account_holds_the_lock_of_an_auction() {
    let mut host = host_with_auction();
    host.now = 2;
    assert!(host.locks.is_empty());
    assert!(host.english_bid_value(RawOrigin::Signed(200), 0, 50).is_ok());
    assert_eq!(host.locks.len(), 1);
    assert_eq!(host.locked_funds(0, 200), Some(50));
    assert!(host.english_bid_value(RawOrigin::Signed(300), 0, 70).is_ok());
    assert_eq!(host.locks.len(), 1);
    assert_eq!(host.locked_funds(0, 300), Some(70));
    assert!(host.english_bid_value(RawOrigin::Signed(300), 0, 90).is_ok());
    assert_eq!(host.locks.len(), 1);
    assert_eq!(host.locked_funds(0, 300), Some(90));
    assert_eq!(host.house.english_auctions(0).unwrap().last_bid, Some((300, 90)));
}

#[test]
fn locks_are_kept_apart_by_auction() {
    let mut host = host_with_auction();
    assert!(host.mint(RawOrigin::Signed(100), 0, vec![1], TokenData { locked: true }).is_ok());
    let mut second = aukce1();
    second.token_id = (0, 1);
    second.minimal_bid = 10;
    assert_eq!(
        host.english_create_auction(RawOrigin::Signed(100), second),
        Ok(Event::EnglishAuctionCreated(100, 1))
    );
    host.now = 2;
    assert!(host.english_bid_value(RawOrigin::Signed(200), 0, 100).is_ok());
    assert!(host.english_bid_value(RawOrigin::Signed(200), 1, 10).is_ok());
    assert_eq!(host.locked_funds(0, 200), Some(100));
    assert_eq!(host.locked_funds(1, 200), Some(10));
    assert!(host.english_bid_value(RawOrigin::Signed(300), 1, 20).is_ok());
    assert_eq!(host.locked_funds(0, 200), Some(100));
    assert_eq!(host.locked_funds(1, 200), None);
    assert_eq!(host.locked_funds(1, 300), Some(20));
}

#[test]
fn a_bid_with_time_to_spare_leaves_the_end_alone() {
    let mut host = host_with_auction();
    host.now = 10;
    assert!(host.english_bid_value(RawOrigin::Signed(200), 0, 50).is_ok());
    assert_eq!(host.house.english_auctions(0).unwrap().end, 20);
    assert_eq!(host.house.auction_end_time(20), vec![0]);
    host.now = 11;
    assert!(host.english_bid_value(RawOrigin::Signed(300), 0, 60).is_ok());
    assert_eq!(host.house.english_auctions(0).unwrap().end, 21);
    assert!(host.house.auction_end_time(20).is_empty());
    assert_eq!(host.house.auction_end_time(21), vec![0]);
    assert!(host.on_finalize(20).is_empty());
    assert_eq!(host.on_finalize(21).len(), 1);
}

#[test]
fn a_step_that_cannot_be_represented_is_an_overflow() {
    let mut host = Host::new();
    create_nft(&mut host);
    let mut info = aukce1();
    info.minimal_bid = u128::MAX - 5;
    assert!(host.english_create_auction(RawOrigin::Signed(100), info.clone()).is_ok());
    host.now = 2;
    let r = host.house.english_bid_value(2, RawOrigin::Signed(200), 0, u128::MAX - 5);
    assert_eq!(refused(r), Error::BidOverflow);
    assert_eq!(Error::BidOverflow.kind(), ErrorKind::Overflow);
    assert_eq!(host.house.english_auctions(0).unwrap(), info);
}

#[test]
fn an_end_that_cannot_be_represented_is_an_overflow() {
    let mut host = Host::new();
    create_nft(&mut host);
    let mut info = aukce1();
    info.start = u64::MAX - 20;
    info.end = u64::MAX;
    assert!(host.english_create_auction(RawOrigin::Signed(100), info.clone()).is_ok());
    let r = host.house.english_bid_value(u64::MAX - 5, RawOrigin::Signed(200), 0, 50);
    assert_eq!(refused(r), Error::TimeOverflow);
    assert_eq!(Error::TimeOverflow.kind(), ErrorKind::Overflow);
    assert_eq!(host.house.english_auctions(0).unwrap(), info);
    let r = host.house.english_bid_value(u64::MAX - 10, RawOrigin::Signed(200), 0, 50);
    assert!(r.is_ok());
    assert_eq!(host.house.english_auctions(0).unwrap().end, u64::MAX);
}

#[test]
fn the_numbers_run_out() {
    let mut house = Pallet::starting_at(u64::MAX - 1);
    let token = free_token(100);
    let r = house.english_create_auction(1, RawOrigin::Signed(100), aukce1(), &token);
    assert_eq!(r.unwrap().0, Event::EnglishAuctionCreated(100, u64::MAX - 1));
    assert_eq!(house.auctions_index(), u64::MAX);
    let mut other = aukce1();
    other.token_id = (0, 1);
    let r = house.english_create_auction(1, RawOrigin::Signed(100), other, &token);
    assert_eq!(refused(r), Error::NoAvailableAuctionId);
    assert_eq!(Error::NoAvailableAuctionId.kind(), ErrorKind::Overflow);
    assert_eq!(house.auctions_index(), u64::MAX);
    assert!(house.english_auctions(u64::MAX).is_none());
}

#[test]
fn numbers_are_not_given_out_twice() {
    let mut host = host_with_auction();
    assert!(host.on_finalize(20).len() == 1);
    assert_eq!(host.house.english_auctions(0), None);
    let event = host.english_create_auction(RawOrigin::Signed(100), aukce1());
    assert_eq!(event, Ok(Event::EnglishAuctionCreated(100, 1)));
    assert_eq!(host.house.auctions_index(), 2);
}

#[test]
fn a_registry_without_the_class_refuses_the_lock() {
    let mut house = Pallet::new();
    let orphan = TokenEntry {
        class: None,
        token: Some(TokenInfo { owner: 100, data: TokenData { locked: false } }),
    };
    let r = house.english_create_auction(1, RawOrigin::Signed(100), aukce1(), &orphan);
    assert_eq!(r, Err(DispatchError::Nft(nft::Error::ClassNotFound)));
    assert_eq!(house.auctions_index(), 0);
    assert!(house.auction_end_time(20).is_empty());
}

#[test]
fn removal_is_refused_where_the_token_cannot_be_given_back() {
    let mut host = Host::new();
    create_nft(&mut host);
    let mut info = aukce1();
    info.start = 5;
    assert!(host.english_create_auction(RawOrigin::Signed(100), info.clone()).is_ok());
    let gone = TokenEntry { class: Some(ClassInfo { owner: 100, total_issuance: 0 }), token: None };
    let r = host.house.english_delete_auction(1, RawOrigin::Signed(100), 0, &gone);
    assert_eq!(r, Err(DispatchError::Nft(nft::Error::TokenNotFound)));
    let foreign = held_token(7);
    let r = host.house.english_delete_auction(1, RawOrigin::Signed(100), 0, &foreign);
    assert_eq!(r, Err(DispatchError::Nft(nft::Error::NoPermission)));
    let classless = TokenEntry { class: None, token: held_token(100).token };
    let r = host.house.english_delete_auction(1, RawOrigin::Signed(100), 0, &classless);
    assert_eq!(r, Err(DispatchError::Nft(nft::Error::ClassNotFound)));
    assert_eq!(host.house.english_auctions(0).unwrap(), info);
    assert_eq!(host.house.auction_end_time(20), vec![0]);
}

#[test]
fn a_settlement_that_fails_lets_the_funds_go_and_moves_nothing() {
    let mut host = host_with_auction();
    host.now = 5;
    assert!(host.english_bid_value(RawOrigin::Signed(200), 0, 50).is_ok());
    let done = host.house.on_finalize(20, &vec![held_token(7)]);
    assert_eq!(
        done,
        vec![Settlement {
            id: 0,
            owner: 100,
            token_id: (0, 0),
            last_bid: Some((200, 50)),
            locked: true,
            failure: Some(nft::Error::NoPermission),
        }]
    );
    assert_eq!(done[0].effects(), vec![Effect::RemoveLock { auction: 0, account: 200 }]);
    assert_eq!(host.house.english_auctions(0), None);
    assert!(host.house.auction_end_time(20).is_empty());
}

#[test]
fn an_auction_without_an_entry_is_settled_as_if_the_token_were_gone() {
    let mut host = host_with_auction();
    let done = host.house.on_finalize(20, &Vec::new());
    assert_eq!(done.len(), 1);
    assert_eq!(done[0].failure, Some(nft::Error::ClassNotFound));
    assert!(!done[0].locked);
    assert!(done[0].effects().is_empty());
    assert_eq!(host.house.english_auctions(0), None);
}

#[test]
fn one_failure_does_not_stop_the_others() {
    let mut host = host_with_auction();
    assert!(host.mint(RawOrigin::Signed(100), 0, vec![1], TokenData { locked: false }).is_ok());
    assert!(host.mint(RawOrigin::Signed(100), 0, vec![2], TokenData { locked: false }).is_ok());
    for token in 1..3u64 {
        let mut info = aukce1();
        info.token_id = (0, token);
        assert!(host.english_create_auction(RawOrigin::Signed(100), info).is_ok());
    }
    assert_eq!(host.house.auction_end_time(20), vec![0, 1, 2]);
    host.now = 2;
    assert!(host.english_bid_value(RawOrigin::Signed(200), 2, 50).is_ok());
    let entries = vec![host.entry((0, 0)), held_token(9), host.entry((0, 2))];
    let done = host.house.on_finalize(20, &entries);
    assert_eq!(done.len(), 3);
    assert_eq!(done[0].failure, None);
    assert_eq!(done[1].failure, Some(nft::Error::NoPermission));
    assert_eq!(done[2].failure, None);
    assert_eq!(done[0].id, 0);
    assert_eq!(done[1].id, 1);
    assert_eq!(done[2].id, 2);
    assert_eq!(done[2].effects().len(), 4);
    assert_eq!(host.house.auctions_index(), 3);
    for id in 0..3u64 {
        assert_eq!(host.house.english_auctions(id), None);
    }
}

#[test]
fn the_kinds_are_kept_apart_and_settled_together() {
    let mut house = Pallet::new();
    let token = free_token(100);
    let mut english = aukce1();
    english.token_id = (0, 0);
    let mut candle = aukce1();
    candle.token_id = (0, 1);
    let mut topup = aukce1();
    topup.token_id = (0, 2);
    assert_eq!(
        house.english_create_auction(1, RawOrigin::Signed(100), english, &token).unwrap().0,
        Event::EnglishAuctionCreated(100, 0)
    );
    assert_eq!(
        house.candle_create_auction(1, RawOrigin::Signed(100), candle.clone(), &token).unwrap().0,
        Event::CandleAuctionCreated(100, 1)
    );
    assert_eq!(
        house.topup_create_auction(1, RawOrigin::Signed(100), topup, &token).unwrap().0,
        Event::TopUpAuctionCreated(100, 2)
    );
    assert!(house.english_auctions(1).is_none());
    assert_eq!(house.candle_auctions(1), Some(candle));
    assert!(house.topup_auctions(1).is_none());
    assert!(house.auction(AuctionType::TopUp, 2).is_some());
    assert_eq!(refused(house.english_bid_value(5, RawOrigin::Signed(200), 1, 50)), Error::AuctionNotExist);
    assert_eq!(refused(house.topup_bid_value(5, RawOrigin::Signed(200), 1, 50)), Error::AuctionNotExist);
    assert_eq!(
        house.candle_bid_value(5, RawOrigin::Signed(200), 1, 50).unwrap().0,
        Event::Bid(1, 200, 50)
    );
    assert_eq!(
        house.topup_bid_value(5, RawOrigin::Signed(200), 2, 70).unwrap().0,
        Event::Bid(2, 200, 70)
    );
    assert_eq!(
        refused(house.candle_delete_auction(0, RawOrigin::Signed(100), 0, &held_token(100))),
        Error::AuctionNotExist
    );
    assert_eq!(
        refused(house.topup_delete_auction(0, RawOrigin::Signed(100), 1, &held_token(100))),
        Error::AuctionNotExist
    );
    assert_eq!(
        house.english_delete_auction(0, RawOrigin::Signed(100), 0, &held_token(100)).unwrap().0,
        Event::AuctionRemoved(0)
    );
    let held = held_token(100);
    let done = CandleAuction::conclude_auction(&mut house, 20, &vec![held, held]);
    assert_eq!(done.len(), 2);
    assert_eq!(done[0].id, 1);
    assert_eq!(done[1].id, 2);
    assert!(TopUpAuction::conclude_auction(&mut house, 20, &Vec::new()).is_empty());
    assert!(EnglishAuction::conclude_auction(&mut house, 20, &Vec::new()).is_empty());
}

#[test]
fn the_traits_do_what_the_calls_do() {
    let mut house = Pallet::new();
    let token = free_token(100);
    assert_eq!(
        <Pallet<AuctionStore> as EnglishAuction>::check_new_auction(1, 100, &aukce1(), &token),
        Ok(())
    );
    assert_eq!(
        <Pallet<AuctionStore> as CandleAuction>::check_new_auction(2, 100, &aukce1(), &token),
        Err(DispatchError::Auction(Error::AuctionStartTimeAlreadyPassed))
    );
    assert_eq!(
        <Pallet<AuctionStore> as TopUpAuction>::check_new_auction(1, 100, &aukce1(), &held_token(100)),
        Err(DispatchError::Auction(Error::TokenLocked))
    );
    let (id, effects) = EnglishAuction::new_auction(&mut house, 1, 100, aukce1(), &token).unwrap();
    assert_eq!(id, 0);
    assert_eq!(effects, vec![Effect::ToggleLock { account: 100, token: (0, 0) }]);
    let effects = EnglishAuction::bid(&mut house, 5, 200, 0, 50).unwrap();
    assert_eq!(effects, vec![Effect::SetLock { auction: 0, account: 200, amount: 50 }]);
    assert_eq!(
        CandleAuction::bid(&mut house, 5, 200, 0, 50),
        Err(DispatchError::Auction(Error::AuctionNotExist))
    );
    assert_eq!(
        EnglishAuction::remove_auction(&mut house, 5, 0, &held_token(100)),
        Err(DispatchError::Auction(Error::AuctionAlreadyStarted))
    );
    let mut changed = house.english_auctions(0).unwrap();
    changed.end = 40;
    changed.name = "Aukce2".as_bytes().to_vec();
    assert_eq!(
        TopUpAuction::update_auction(&mut house, 0, changed.clone()),
        Err(DispatchError::Auction(Error::AuctionNotExist))
    );
    assert_eq!(
        EnglishAuction::update_auction(&mut house, 7, changed.clone()),
        Err(DispatchError::Auction(Error::AuctionNotExist))
    );
    assert_eq!(EnglishAuction::update_auction(&mut house, 0, changed.clone()), Ok(()));
    assert_eq!(house.english_auctions(0), Some(changed));
    assert!(house.auction_end_time(20).is_empty());
    assert_eq!(house.auction_end_time(40), vec![0]);
    let (id, _) = CandleAuction::new_auction(&mut house, 1, 100, aukce1(), &token).unwrap();
    assert_eq!(id, 1);
    assert_eq!(CandleAuction::remove_auction(&mut house, 0, 1, &held_token(100)).unwrap().len(), 1);
    let (id, _) = TopUpAuction::new_auction(&mut house, 1, 100, aukce1(), &token).unwrap();
    assert_eq!(id, 2);
    assert!(TopUpAuction::bid(&mut house, 5, 200, 2, 50).is_ok());
    assert_eq!(TopUpAuction::remove_auction(&mut house, 0, 2, &held_token(100)).unwrap().len(), 1);
    let done = EnglishAuction::conclude_auction(&mut house, 40, &vec![held_token(100)]);
    assert_eq!(done.len(), 1);
    assert_eq!(done[0].last_bid, Some((200, 50)));
}

#[test]
fn a_house_can_be_put_over_a_table() {
    let store = AuctionStore::starting_at(5);
    let mut house = Pallet::over(store);
    let (id, _) = house.create_auction(AuctionType::Candle, 1, 100, aukce1(), &free_token(100)).unwrap();
    assert_eq!(id, 5);
    assert_eq!(house.candle_auctions(5), Some(aukce1()));
    assert!(house.bid_value(AuctionType::Candle, 5, 200, 5, 50).is_ok());
    assert!(house.replace_auction(AuctionType::Candle, 5, aukce1()).is_ok());
    assert!(house.delete_auction(AuctionType::Candle, 0, 5, &held_token(100)).is_ok());
    assert!(house.settle_due(20, &Vec::new()).is_empty());
}

#[test]
fn an_auction_info_is_copied_whole() {
    let info: AuctionInfo = aukce1();
    let copy = info.clone();
    assert_eq!(copy, info);
    assert_eq!(copy.name, "Aukce1".as_bytes().to_vec());
}
