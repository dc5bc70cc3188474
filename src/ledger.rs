use vstd::prelude::*;
use crate::address::Address;
use crate::error::AuctionError;

verus! {

/// A bidder's promise to pay `amount` if chosen. Bid amounts are not escrowed.
#[derive(Clone, Copy, Debug, PartialEq, Eq)]
pub struct Bid {
    pub bidder: Address,
    pub amount: u64,
}

/// The auction record: the asset, its seller, the opening time, the advisory
/// starting price and the outstanding bids in the order they were placed.
#[derive(Debug)]
pub struct Auction {
    pub mint: Address,
    pub seller: Address,
    pub start_time: i64,
    pub starting_price: u64,
    pub bids: Vec<Bid>,
}

/// The record as a mathematical value.
pub struct AuctionView {
    pub mint: Address,
    pub seller: Address,
    pub start_time: i64,
    pub starting_price: u64,
    pub bids: Seq<Bid>,
}

impl View for Auction {
    type V = AuctionView;

    open spec fn view(&self) -> AuctionView {
        AuctionView {
            mint: self.mint,
            seller: self.seller,
            start_time: self.start_time,
            starting_price: self.starting_price,
            bids: self.bids@,
        }
    }
}

/// The index of the earliest bid from `bidder`, if there is one.
pub open spec fn first_bid_index(bids: Seq<Bid>, bidder: Address) -> Option<nat>
    decreases bids.len(),
{
    if bids.len() == 0 {
        None
    } else if bids[0].bidder == bidder {
        Some(0)
    } else {
        match first_bid_index(bids.drop_first(), bidder) {
            Some(i) => Some(i + 1),
            None => None,
        }
    }
}

pub open spec fn has_bid_from(bids: Seq<Bid>, bidder: Address) -> bool {
    exists|i: int| 0 <= i < bids.len() && bids[i].bidder == bidder
}

/// `i` is the earliest position of a bid from `bidder`.
pub open spec fn is_first_bid_of(bids: Seq<Bid>, bidder: Address, i: int) -> bool {
    &&& 0 <= i < bids.len()
    &&& bids[i].bidder == bidder
    &&& forall|j: int| 0 <= j < i ==> bids[j].bidder != bidder
}

/// Lookup by bidder: the earliest matching bid, or `BidNotFound`.
pub open spec fn find_spec(bids: Seq<Bid>, bidder: Address) -> Result<Bid, AuctionError> {
    match first_bid_index(bids, bidder) {
        Some(i) => Ok(bids[i as int]),
        None => Err(AuctionError::BidNotFound),
    }
}

/// Removal by bidder: only the earliest matching bid goes.
pub open spec fn remove_first_spec(bids: Seq<Bid>, bidder: Address) -> Result<Seq<Bid>, AuctionError> {
    match first_bid_index(bids, bidder) {
        Some(i) => Ok(bids.remove(i as int)),
        None => Err(AuctionError::BidNotFound),
    }
}

/// `first_bid_index` finds the earliest match, and finds none only when no
/// bid comes from the bidder.
pub proof fn lemma_first_bid_index(bids: Seq<Bid>, bidder: Address)
    ensures
        match first_bid_index(bids, bidder) {
            Some(i) => is_first_bid_of(bids, bidder, i as int),
            None => !has_bid_from(bids, bidder),
        },
    decreases bids.len(),
{
    if bids.len() > 0 && bids[0].bidder != bidder {
        let tail = bids.drop_first();
        lemma_first_bid_index(tail, bidder);
        match first_bid_index(tail, bidder) {
            Some(i) => {
                assert forall|j: int| 0 <= j < i + 1 implies bids[j].bidder != bidder by {
                    if j > 0 {
                        assert(bids[j] == tail[j - 1]);
                    }
                }
            },
            None => {
                if has_bid_from(bids, bidder) {
                    let k = choose|k: int| 0 <= k < bids.len() && bids[k].bidder == bidder;
                    assert(tail[k - 1] == bids[k]);
                }
            },
        }
    }
}

/// An index that is the earliest match is the one `first_bid_index` gives.
pub proof fn lemma_first_bid_index_unique(bids: Seq<Bid>, bidder: Address, i: int)
    requires
        is_first_bid_of(bids, bidder, i),
    ensures
        first_bid_index(bids, bidder) == Some(i as nat),
{
    lemma_first_bid_index(bids, bidder);
    match first_bid_index(bids, bidder) {
        Some(k) => {
            if (k as int) < i {
                assert(bids[k as int].bidder != bidder);
            } else if (k as int) > i {
                assert(bids[i].bidder != bidder);
            }
        },
        None => {
            assert(bids[i].bidder == bidder);
        },
    }
}

impl Auction {
    /// The position of the earliest bid from `bidder`.
    pub fn position(&self, bidder: &Address) -> (r: Option<usize>)
        ensures
            match r {
                Some(i) => first_bid_index(self.bids@, *bidder) == Some(i as nat)
                    && is_first_bid_of(self.bids@, *bidder, i as int),
                None => first_bid_index(self.bids@, *bidder) is None
                    && !has_bid_from(self.bids@, *bidder),
            },
    {
        let mut i: usize = 0;
        while i < self.bids.len()
            invariant
                0 <= i <= self.bids@.len(),
                forall|j: int| 0 <= j < i ==> self.bids@[j].bidder != *bidder,
            decreases self.bids@.len() - i,
        {
            if self.bids[i].bidder == *bidder {
                proof {
                    lemma_first_bid_index_unique(self.bids@, *bidder, i as int);
                }
                return Some(i);
            }
            i = i + 1;
        }
        proof {
            lemma_first_bid_index(self.bids@, *bidder);
        }
        None
    }

    /// The earliest outstanding bid from `bidder`.
    pub fn find(&self, bidder: &Address) -> (r: Result<Bid, AuctionError>)
        ensures
            r == find_spec(self.bids@, *bidder),
    {
        match self.position(bidder) {
            Some(i) => Ok(self.bids[i]),
            None => Err(AuctionError::BidNotFound),
        }
    }

    /// Appends a bid; no deduplication and no check on the amount. Returns the
    /// number of bids afterwards.
    pub fn place(&mut self, bidder: Address, amount: u64) -> (r: usize)
        requires
            old(self).bids@.len() < usize::MAX,
        ensures
            final(self)@ == (AuctionView { bids: old(self)@.bids.push(Bid { bidder, amount }), ..old(self)@ }),
            r == final(self)@.bids.len(),
    {
        self.bids.push(Bid { bidder, amount });
        self.bids.len()
    }

    /// Removes the earliest bid from `bidder` and returns it; later bids from
    /// the same bidder stay.
    pub fn reject(&mut self, bidder: &Address) -> (r: Result<Bid, AuctionError>)
        ensures
            r == find_spec(old(self)@.bids, *bidder),
            match remove_first_spec(old(self)@.bids, *bidder) {
                Ok(bids) => final(self)@ == (AuctionView { bids, ..old(self)@ }),
                Err(_) => *final(self) == *old(self),
            },
    {
        match self.position(bidder) {
            Some(i) => {
                let removed = self.bids.remove(i);
                Ok(removed)
            },
            None => Err(AuctionError::BidNotFound),
        }
    }
}

} // verus!
