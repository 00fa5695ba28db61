//! The auction table: auctions by number, the numbers that are due at each
//! height, and the counter that hands out the numbers.
//!
//! The table keeps what it is given. It knows nothing of the rules by which
//! auctions are made and bid on. What a table has to do is said by [`Store`];
//! [`AuctionStore`] is a table in memory.

use vstd::prelude::*;
use std::collections::HashMap;
use crate::primitives::{AuctionId, BlockNumber};
use crate::traits::{Auction, AuctionView};
use crate::error::Error;

verus! {

broadcast use vstd::std_specs::hash::group_hash_axioms;

/// An auction table in memory.
pub struct AuctionStore {
    next_id: AuctionId,
    auctions: HashMap<AuctionId, Auction>,
    ends: HashMap<BlockNumber, Vec<AuctionId>>,
}

/// The auction table as a value.
#[verifier::ext_equal]
pub struct StoreView {
    /// The number that the next auction gets.
    pub next_id: AuctionId,
    /// The auctions, by number.
    pub auctions: Map<AuctionId, AuctionView>,
    /// For each height that has any, the numbers indexed under it, in the
    /// order in which they came.
    pub ends: Map<BlockNumber, Seq<AuctionId>>,
}

/// `ids` without `id`.
pub open spec fn without(ids: Seq<AuctionId>, id: AuctionId) -> Seq<AuctionId> {
    if ids.contains(id) {
        ids.remove(ids.index_of(id))
    } else {
        ids
    }
}

impl StoreView {
    /// The table before anything is put into it.
    pub open spec fn empty() -> StoreView {
        StoreView { next_id: 0, auctions: Map::empty(), ends: Map::empty() }
    }

    /// The numbers indexed under `height`.
    pub open spec fn due(self, height: BlockNumber) -> Seq<AuctionId> {
        if self.ends.contains_key(height) {
            self.ends[height]
        } else {
            Seq::empty()
        }
    }

    /// The table after the next number is handed out.
    pub open spec fn advanced(self) -> StoreView {
        StoreView { next_id: (self.next_id + 1) as AuctionId, ..self }
    }

    /// The table with `auction` under `id`.
    pub open spec fn with_auction(self, id: AuctionId, auction: AuctionView) -> StoreView {
        StoreView { auctions: self.auctions.insert(id, auction), ..self }
    }

    /// The table with nothing under `id`.
    pub open spec fn without_auction(self, id: AuctionId) -> StoreView {
        StoreView { auctions: self.auctions.remove(id), ..self }
    }

    /// The table with `id` indexed under `height`. A number is indexed under
    /// a height once, however often this is asked for.
    pub open spec fn indexed(self, height: BlockNumber, id: AuctionId) -> StoreView {
        if self.due(height).contains(id) {
            self
        } else {
            StoreView { ends: self.ends.insert(height, self.due(height).push(id)), ..self }
        }
    }

    /// The table with `id` no longer indexed under `height`.
    pub open spec fn unindexed(self, height: BlockNumber, id: AuctionId) -> StoreView {
        if !self.due(height).contains(id) {
            self
        } else if without(self.due(height), id).len() == 0 {
            StoreView { ends: self.ends.remove(height), ..self }
        } else {
            StoreView { ends: self.ends.insert(height, without(self.due(height), id)), ..self }
        }
    }

    /// The table with nothing indexed under `height`.
    pub open spec fn drained(self, height: BlockNumber) -> StoreView {
        StoreView { ends: self.ends.remove(height), ..self }
    }

    /// What the index keeps to: it holds no height without a number, and no
    /// number twice under one height.
    pub open spec fn wf(self) -> bool {
        forall|height: BlockNumber| #[trigger]
            self.ends.contains_key(height) ==> self.ends[height].len() > 0
                && self.ends[height].no_duplicates()
    }
}

/// In a list without repetition, a value is found where it stands.
pub proof fn lemma_index_of_unique(ids: Seq<AuctionId>, i: int)
    requires
        ids.no_duplicates(),
        0 <= i < ids.len(),
    ensures
        ids.contains(ids[i]),
        ids.index_of(ids[i]) == i,
{
    assert(ids.contains(ids[i]));
    let j = ids.index_of(ids[i]);
    assert(0 <= j < ids.len() && ids[j] == ids[i]);
}

/// Taking a value out of a list without repetition leaves a list without
/// repetition that no longer holds it and holds every other value it held.
pub proof fn lemma_without(ids: Seq<AuctionId>, id: AuctionId)
    requires
        ids.no_duplicates(),
    ensures
        without(ids, id).no_duplicates(),
        !without(ids, id).contains(id),
        forall|other: AuctionId|
            other != id ==> (#[trigger] without(ids, id).contains(other) <==> ids.contains(other)),
        ids.contains(id) ==> without(ids, id).len() == ids.len() - 1,
{
    if ids.contains(id) {
        let k = ids.index_of(id);
        let rest = ids.remove(k);
        assert(0 <= k < ids.len() && ids[k] == id);
        assert forall|i: int| 0 <= i < rest.len() implies #[trigger] rest[i] == ids[if i < k {
            i
        } else {
            i + 1
        }] by {}
        assert forall|other: AuctionId| other != id implies (#[trigger] rest.contains(other)
            <==> ids.contains(other)) by {
            if ids.contains(other) {
                let j = ids.index_of(other);
                assert(0 <= j < ids.len() && ids[j] == other);
                if j < k {
                    assert(rest[j] == other);
                } else {
                    assert(rest[j - 1] == other);
                }
            }
        }
    }
}

/// Indexing puts one number under one height and leaves the rest of the
/// index as it was.
pub proof fn lemma_indexed(store: StoreView, height: BlockNumber, id: AuctionId)
    requires
        store.wf(),
    ensures
        store.indexed(height, id).wf(),
        store.indexed(height, id).auctions == store.auctions,
        store.indexed(height, id).next_id == store.next_id,
        forall|h: BlockNumber, other: AuctionId| #[trigger]
            store.indexed(height, id).due(h).contains(other) <==> store.due(h).contains(other) || (h
                == height && other == id),
        forall|h: BlockNumber|
            h != height ==> #[trigger] store.indexed(height, id).due(h) == store.due(h),
{
    let after = store.indexed(height, id);
    if !store.due(height).contains(id) {
        let ids = store.due(height).push(id);
        assert(after.due(height) == ids);
        assert(ids[ids.len() - 1] == id);
        assert(ids.no_duplicates());
        assert forall|h: BlockNumber, other: AuctionId| #[trigger]
            after.due(h).contains(other) <==> store.due(h).contains(other) || (h == height && other
                == id) by {
            if h == height {
                if store.due(h).contains(other) {
                    let j = store.due(h).index_of(other);
                    assert(0 <= j < store.due(h).len() && store.due(h)[j] == other);
                    assert(ids[j] == other);
                }
            }
        }
    }
}

/// Taking a number out of the index under one height leaves the rest of the
/// index as it was.
pub proof fn lemma_unindexed(store: StoreView, height: BlockNumber, id: AuctionId)
    requires
        store.wf(),
    ensures
        store.unindexed(height, id).wf(),
        store.unindexed(height, id).auctions == store.auctions,
        store.unindexed(height, id).next_id == store.next_id,
        forall|h: BlockNumber, other: AuctionId| #[trigger]
            store.unindexed(height, id).due(h).contains(other) <==> store.due(h).contains(other)
                && !(h == height && other == id),
        forall|h: BlockNumber|
            h != height ==> #[trigger] store.unindexed(height, id).due(h) == store.due(h),
{
    let after = store.unindexed(height, id);
    if store.due(height).contains(id) {
        lemma_without(store.due(height), id);
        let rest = without(store.due(height), id);
        assert(after.due(height) == rest) by {
            if rest.len() == 0 {
                assert(after.due(height) =~= rest);
            }
        }
        assert forall|h: BlockNumber, other: AuctionId| #[trigger]
            after.due(h).contains(other) <==> store.due(h).contains(other) && !(h == height
                && other == id) by {}
    }
}

/// The place of `id` in `ids`, where it has one.
fn position(ids: &Vec<AuctionId>, id: AuctionId) -> (r: Option<usize>)
    ensures
        match r {
            Some(i) => i < ids@.len() && ids@[i as int] == id,
            None => !ids@.contains(id),
        },
{
    let mut i: usize = 0;
    while i < ids.len()
        invariant
            i <= ids@.len(),
            forall|j: int| 0 <= j < i ==> ids@[j] != id,
        decreases ids@.len() - i,
    {
        if ids[i] == id {
            return Some(i);
        }
        i = i + 1;
    }
    None
}

/// What an auction table does.
///
/// The rules of the auction house are written against this, so that the table
/// can live wherever the host keeps its state.
pub trait Store {
    /// The table as a value. A table that is kept outside this library, on
    /// a chain or on a disk, is not held to what is promised below, and may
    /// leave this as it is.
    open spec fn view(&self) -> StoreView {
        arbitrary()
    }

    /// The number that the next auction gets.
    fn next_id(&self) -> (id: AuctionId)
        ensures
            id == self@.next_id,
    ;

    /// Hands out a number that was never handed out before. When the counter
    /// has reached the largest number there is none left to hand out.
    fn allocate_id(&mut self) -> (r: Result<AuctionId, Error>)
        ensures
            match r {
                Ok(id) => id == old(self)@.next_id && id < AuctionId::MAX && final(self)@ == old(
                    self,
                )@.advanced(),
                Err(e) => e == Error::NoAvailableAuctionId && old(self)@.next_id == AuctionId::MAX
                    && final(self)@ == old(self)@,
            },
    ;

    /// Whether there is an auction under `id`.
    fn contains(&self, id: AuctionId) -> (b: bool)
        ensures
            b == self@.auctions.contains_key(id),
    ;

    /// Puts `auction` under `id`, in place of what was there.
    fn insert(&mut self, id: AuctionId, auction: Auction)
        ensures
            final(self)@ == old(self)@.with_auction(id, auction@),
    ;

    /// The auction under `id`.
    fn get(&self, id: AuctionId) -> (r: Option<Auction>)
        ensures
            match r {
                Some(auction) => self@.auctions.contains_key(id) && auction@ == self@.auctions[id],
                None => !self@.auctions.contains_key(id),
            },
    ;

    /// Takes the auction under `id` out of the table.
    fn remove(&mut self, id: AuctionId) -> (r: Option<Auction>)
        ensures
            final(self)@ == old(self)@.without_auction(id),
            match r {
                Some(auction) => old(self)@.auctions.contains_key(id) && auction@ == old(
                    self,
                )@.auctions[id],
                None => !old(self)@.auctions.contains_key(id),
            },
    ;

    /// Puts `auction` under `id` where there is an auction already.
    fn update_if_present(&mut self, id: AuctionId, auction: Auction) -> (r: Result<(), Error>)
        ensures
            match r {
                Ok(()) => old(self)@.auctions.contains_key(id) && final(self)@ == old(
                    self,
                )@.with_auction(id, auction@),
                Err(e) => e == Error::AuctionNotExist && !old(self)@.auctions.contains_key(id)
                    && final(self)@ == old(self)@,
            },
    ;

    /// The numbers indexed under `height`, in the order in which they came.
    fn due(&self, height: BlockNumber) -> (ids: Vec<AuctionId>)
        ensures
            ids@ == self@.due(height),
    ;

    /// Indexes `id` under `height`.
    fn index_by_end(&mut self, height: BlockNumber, id: AuctionId)
        requires
            old(self)@.wf(),
        ensures
            final(self)@ == old(self)@.indexed(height, id),
            final(self)@.wf(),
    ;

    /// Takes `id` out of the index under `height`.
    fn unindex(&mut self, height: BlockNumber, id: AuctionId)
        requires
            old(self)@.wf(),
        ensures
            final(self)@ == old(self)@.unindexed(height, id),
            final(self)@.wf(),
    ;

    /// Takes out of the index, and hands back, every number indexed under
    /// `height`, in the order in which they came.
    fn drain_due(&mut self, height: BlockNumber) -> (ids: Vec<AuctionId>)
        ensures
            ids@ == old(self)@.due(height),
            final(self)@ == old(self)@.drained(height),
    ;
}

impl AuctionStore {
    /// An empty table, whose first number is 0.
    pub fn new() -> (store: Self)
        ensures
            store@ == StoreView::empty(),
    {
        Self::starting_at(0)
    }

    /// An empty table, whose first number is `next_id`.
    pub fn starting_at(next_id: AuctionId) -> (store: Self)
        ensures
            store@ == (StoreView { next_id, ..StoreView::empty() }),
    {
        let store = AuctionStore { next_id, auctions: HashMap::new(), ends: HashMap::new() };
        assert(store@.auctions =~= Map::empty());
        assert(store@.ends =~= Map::empty());
        store
    }
}

impl Store for AuctionStore {
    closed spec fn view(&self) -> StoreView {
        StoreView {
            next_id: self.next_id,
            auctions: self.auctions@.map_values(|a: Auction| a@),
            ends: self.ends@.map_values(|ids: Vec<AuctionId>| ids@),
        }
    }

    fn next_id(&self) -> (id: AuctionId) {
        self.next_id
    }

    fn allocate_id(&mut self) -> (r: Result<AuctionId, Error>) {
        match self.next_id.checked_add(1) {
            Some(next) => {
                let current = self.next_id;
                self.next_id = next;
                Ok(current)
            },
            None => Err(Error::NoAvailableAuctionId),
        }
    }

    fn contains(&self, id: AuctionId) -> (b: bool) {
        self.auctions.contains_key(&id)
    }

    fn insert(&mut self, id: AuctionId, auction: Auction) {
        self.auctions.insert(id, auction);
        assert(self@.auctions =~= old(self)@.auctions.insert(id, auction@));
    }

    fn get(&self, id: AuctionId) -> (r: Option<Auction>) {
        match self.auctions.get(&id) {
            Some(auction) => Some(auction.clone()),
            None => None,
        }
    }

    fn remove(&mut self, id: AuctionId) -> (r: Option<Auction>) {
        let taken = self.auctions.remove(&id);
        assert(self@.auctions =~= old(self)@.auctions.remove(id));
        taken
    }

    fn update_if_present(&mut self, id: AuctionId, auction: Auction) -> (r: Result<(), Error>) {
        if self.auctions.contains_key(&id) {
            self.insert(id, auction);
            Ok(())
        } else {
            Err(Error::AuctionNotExist)
        }
    }

    fn due(&self, height: BlockNumber) -> (ids: Vec<AuctionId>) {
        match self.ends.get(&height) {
            Some(ids) => ids.clone(),
            None => Vec::new(),
        }
    }

    fn index_by_end(&mut self, height: BlockNumber, id: AuctionId) {
        let mut ids = match self.ends.remove(&height) {
            Some(ids) => ids,
            None => Vec::new(),
        };
        assert(ids@ == old(self)@.due(height));
        if position(&ids, id).is_none() {
            ids.push(id);
        }
        assert(ids@.no_duplicates());
        self.ends.insert(height, ids);
        assert(self@.ends =~= old(self)@.indexed(height, id).ends);
        assert(self@.auctions =~= old(self)@.auctions);
    }

    fn unindex(&mut self, height: BlockNumber, id: AuctionId) {
        match self.ends.remove(&height) {
            None => {
                assert(self@.ends =~= old(self)@.ends);
            },
            Some(ids) => {
                let mut ids = ids;
                assert(ids@ == old(self)@.due(height));
                match position(&ids, id) {
                    Some(i) => {
                        proof {
                            lemma_index_of_unique(ids@, i as int);
                            lemma_without(ids@, id);
                        }
                        ids.remove(i);
                        assert(ids@ == without(old(self)@.due(height), id));
                    },
                    None => {},
                }
                if ids.len() > 0 {
                    self.ends.insert(height, ids);
                }
                assert(self@.ends =~= old(self)@.unindexed(height, id).ends);
            },
        }
        assert(self@.auctions =~= old(self)@.auctions);
    }

    fn drain_due(&mut self, height: BlockNumber) -> (ids: Vec<AuctionId>) {
        let ids = match self.ends.remove(&height) {
            Some(ids) => ids,
            None => Vec::new(),
        };
        assert(self@.ends =~= old(self)@.ends.remove(height));
        assert(self@.auctions =~= old(self)@.auctions);
        ids
    }
}

} // verus!
