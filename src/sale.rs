use vstd::prelude::*;
use crate::address::Address;
use crate::authority::{VaultAuthority, vault_authority_of};
use crate::error::AuctionError;
use crate::ledger::{Auction, AuctionView, Bid, find_spec, remove_first_spec};

verus! {

/// The storage allowance of one auction record, counted in bids.
pub const MAX_BIDS: usize = 32;

/// Where an auction stands: its record is created once and destroyed once,
/// and a destroyed record's address is never reused.
#[derive(Debug)]
pub enum Stage {
    Unopened,
    Open(Auction),
    Closed,
}

pub enum StageView {
    Unopened,
    Open(AuctionView),
    Closed,
}

impl View for Stage {
    type V = StageView;

    open spec fn view(&self) -> StageView {
        match self {
            Stage::Unopened => StageView::Unopened,
            Stage::Open(a) => StageView::Open(a@),
            Stage::Closed => StageView::Closed,
        }
    }
}

/// Everything an auction of one asset consists of: the asset, the program that
/// runs the auction (and so owns the vault authority), the record's stage and
/// the number of units of the asset in the vault.
#[derive(Debug)]
pub struct Sale {
    pub mint: Address,
    pub program_id: Address,
    pub stage: Stage,
    pub vault: u64,
}

pub struct SaleView {
    pub mint: Address,
    pub program_id: Address,
    pub stage: StageView,
    pub vault: u64,
}

impl View for Sale {
    type V = SaleView;

    open spec fn view(&self) -> SaleView {
        SaleView { mint: self.mint, program_id: self.program_id, stage: self.stage@, vault: self.vault }
    }
}

impl SaleView {
    /// The vault holds the asset exactly while the record is open; an open
    /// record is about this sale's asset and within its storage allowance.
    pub open spec fn wf(self) -> bool {
        &&& self.vault == (if self.stage is Open { 1u64 } else { 0u64 })
        &&& (self.stage matches StageView::Open(a) ==> a.mint == self.mint && a.bids.len() <= MAX_BIDS)
    }
}

/// What a settlement carries out: the asset goes from the vault to `winner`,
/// released by `authority`, and `winner` pays `amount` to `seller`.
#[derive(Clone, Copy, Debug, PartialEq, Eq)]
pub struct Settlement {
    pub winner: Address,
    pub seller: Address,
    pub amount: u64,
    pub authority: VaultAuthority,
}

/// What a cancellation carries out: the asset goes from the vault back to
/// `seller`, released by `authority`.
#[derive(Clone, Copy, Debug, PartialEq, Eq)]
pub struct Release {
    pub seller: Address,
    pub authority: VaultAuthority,
}

/// Opening: the caller must hold the asset and the address must be unused;
/// the vault takes the asset and the record starts with no bids.
pub open spec fn start_auction_step(
    s: SaleView,
    seller: Address,
    seller_holding: u64,
    start_time: i64,
    starting_price: u64,
) -> Result<SaleView, AuctionError> {
    if !(s.stage is Unopened) {
        Err(AuctionError::AddressInUse)
    } else if seller_holding == 0 {
        Err(AuctionError::Unauthorized)
    } else {
        Ok(SaleView {
            stage: StageView::Open(AuctionView {
                mint: s.mint,
                seller,
                start_time,
                starting_price,
                bids: Seq::empty(),
            }),
            vault: 1,
            ..s
        })
    }
}

/// Bidding: legal from the start time on, while the record has room; the bid
/// goes to the end.
pub open spec fn place_bid_step(s: SaleView, bidder: Address, amount: u64, now: i64) -> Result<SaleView, AuctionError> {
    match s.stage {
        StageView::Open(a) => if now < a.start_time {
            Err(AuctionError::AuctionNotStarted)
        } else if a.bids.len() >= MAX_BIDS {
            Err(AuctionError::CapacityExceeded)
        } else {
            Ok(SaleView {
                stage: StageView::Open(AuctionView { bids: a.bids.push(Bid { bidder, amount }), ..a }),
                ..s
            })
        },
        _ => Err(AuctionError::AuctionNotFound),
    }
}

/// Rejection: only the seller, and only of an existing bid; the earliest bid
/// of that bidder goes.
pub open spec fn reject_bid_step(s: SaleView, caller: Address, bidder: Address) -> Result<SaleView, AuctionError> {
    match s.stage {
        StageView::Open(a) => if caller != a.seller {
            Err(AuctionError::Unauthorized)
        } else {
            match remove_first_spec(a.bids, bidder) {
                Ok(bids) => Ok(SaleView { stage: StageView::Open(AuctionView { bids, ..a }), ..s }),
                Err(e) => Err(e),
            }
        },
        _ => Err(AuctionError::AuctionNotFound),
    }
}

/// Settlement: only the seller, co-signed by the winning bidder, and only for
/// a bidder with an outstanding bid; the earliest such bid sets the price. The
/// record is destroyed and the vault emptied.
pub open spec fn accept_bid_step(
    s: SaleView,
    caller: Address,
    winning_bidder: Address,
    cosigner: Address,
) -> Result<(SaleView, Settlement), AuctionError> {
    match s.stage {
        StageView::Open(a) => if caller != a.seller {
            Err(AuctionError::Unauthorized)
        } else if cosigner != winning_bidder {
            Err(AuctionError::Unauthorized)
        } else {
            match find_spec(a.bids, winning_bidder) {
                Err(e) => Err(e),
                Ok(bid) => match vault_authority_of(s.mint, s.program_id) {
                    None => Err(AuctionError::AuthorityUnavailable),
                    Some(authority) => Ok((
                        SaleView { stage: StageView::Closed, vault: 0, ..s },
                        Settlement { winner: winning_bidder, seller: a.seller, amount: bid.amount, authority },
                    )),
                },
            }
        },
        _ => Err(AuctionError::AuctionNotFound),
    }
}

/// Cancellation: only the seller, from the start time on, and only with no
/// outstanding bid. The asset goes back, the record is destroyed.
pub open spec fn cancel_auction_step(s: SaleView, caller: Address, now: i64) -> Result<(SaleView, Release), AuctionError> {
    match s.stage {
        StageView::Open(a) => if caller != a.seller {
            Err(AuctionError::Unauthorized)
        } else if now < a.start_time {
            Err(AuctionError::AuctionNotStarted)
        } else if a.bids.len() > 0 {
            Err(AuctionError::BidsPlaced)
        } else {
            match vault_authority_of(s.mint, s.program_id) {
                None => Err(AuctionError::AuthorityUnavailable),
                Some(authority) => Ok((
                    SaleView { stage: StageView::Closed, vault: 0, ..s },
                    Release { seller: a.seller, authority },
                )),
            }
        },
        _ => Err(AuctionError::AuctionNotFound),
    }
}

impl Sale {
    /// A sale of `mint` run by `program_id` that has not been opened.
    pub fn new(mint: Address, program_id: Address) -> (r: Sale)
        ensures
            r@ == (SaleView { mint, program_id, stage: StageView::Unopened, vault: 0 }),
            r@.wf(),
    {
        Sale { mint, program_id, stage: Stage::Unopened, vault: 0 }
    }

    /// Whether the sale meets its invariant.
    pub fn is_well_formed(&self) -> (r: bool)
        ensures
            r == self@.wf(),
    {
        match &self.stage {
            Stage::Open(a) => self.vault == 1 && a.mint == self.mint && a.bids.len() <= MAX_BIDS,
            _ => self.vault == 0,
        }
    }

    /// The open record, if any.
    pub fn auction(&self) -> (r: Option<&Auction>)
        ensures
            match self.stage {
                Stage::Open(a) => r == Some(&a),
                _ => r is None,
            },
    {
        match &self.stage {
            Stage::Open(a) => Some(a),
            _ => None,
        }
    }
}

} // verus!
