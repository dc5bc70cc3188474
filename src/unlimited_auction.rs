//! The auction's instructions. Each one either applies its whole effect or
//! returns an error and leaves the sale exactly as it was.
use vstd::prelude::*;
use crate::address::Address;
use crate::authority::derive_vault_authority;
use crate::error::AuctionError;
use crate::ledger::{Auction, AuctionView, Bid};
use crate::sale::{
    MAX_BIDS, Release, Sale, Settlement, Stage, StageView, accept_bid_step, cancel_auction_step,
    place_bid_step, reject_bid_step, start_auction_step,
};

verus! {

/// Opens the auction: `seller`, who holds `seller_holding` units of the asset,
/// puts it in the vault and the record is created with no bids.
pub fn start_auction(
    sale: &mut Sale,
    seller: Address,
    seller_holding: u64,
    start_time: i64,
    starting_price: u64,
) -> (r: Result<(), AuctionError>)
    requires
        old(sale)@.wf(),
    ensures
        final(sale)@.wf(),
        match start_auction_step(old(sale)@, seller, seller_holding, start_time, starting_price) {
            Ok(next) => r is Ok && final(sale)@ == next,
            Err(e) => r == Err::<(), AuctionError>(e) && *final(sale) == *old(sale),
        },
{
    match sale.stage {
        Stage::Unopened => {},
        _ => return Err(AuctionError::AddressInUse),
    }
    if seller_holding == 0 {
        return Err(AuctionError::Unauthorized);
    }
    let auction = Auction { mint: sale.mint, seller, start_time, starting_price, bids: Vec::new() };
    sale.stage = Stage::Open(auction);
    sale.vault = 1;
    proof {
        assert(sale.stage@ == StageView::Open(AuctionView {
            mint: sale.mint,
            seller,
            start_time,
            starting_price,
            bids: Seq::empty(),
        }));
    }
    Ok(())
}

/// Records a bid of `bid_amount` from `bidder` at time `now`.
pub fn place_bid(sale: &mut Sale, bidder: Address, bid_amount: u64, now: i64) -> (r: Result<(), AuctionError>)
    requires
        old(sale)@.wf(),
    ensures
        final(sale)@.wf(),
        match place_bid_step(old(sale)@, bidder, bid_amount, now) {
            Ok(next) => r is Ok && final(sale)@ == next,
            Err(e) => r == Err::<(), AuctionError>(e) && *final(sale) == *old(sale),
        },
{
    match &sale.stage {
        Stage::Open(a) => {
            if now < a.start_time {
                return Err(AuctionError::AuctionNotStarted);
            }
            if a.bids.len() >= MAX_BIDS {
                return Err(AuctionError::CapacityExceeded);
            }
        },
        _ => return Err(AuctionError::AuctionNotFound),
    }
    match &mut sale.stage {
        Stage::Open(a) => {
            a.place(bidder, bid_amount);
        },
        _ => {},
    }
    Ok(())
}

/// The seller (`caller`) rejects the earliest bid of `bidder`.
pub fn reject_bid(sale: &mut Sale, caller: Address, bidder: Address) -> (r: Result<(), AuctionError>)
    requires
        old(sale)@.wf(),
    ensures
        final(sale)@.wf(),
        match reject_bid_step(old(sale)@, caller, bidder) {
            Ok(next) => r is Ok && final(sale)@ == next,
            Err(e) => r == Err::<(), AuctionError>(e) && *final(sale) == *old(sale),
        },
{
    match &sale.stage {
        Stage::Open(a) => {
            if caller != a.seller {
                return Err(AuctionError::Unauthorized);
            }
            if a.position(&bidder).is_none() {
                return Err(AuctionError::BidNotFound);
            }
        },
        _ => return Err(AuctionError::AuctionNotFound),
    }
    match &mut sale.stage {
        Stage::Open(a) => {
            let _ = a.reject(&bidder);
        },
        _ => {},
    }
    Ok(())
}

/// The seller (`caller`) settles with `winning_bidder`, who co-signs as
/// `cosigner`: the returned settlement moves the asset to the winner and the
/// earliest bid's amount to the seller, and the record is destroyed.
pub fn accept_bid(
    sale: &mut Sale,
    caller: Address,
    winning_bidder: Address,
    cosigner: Address,
) -> (r: Result<Settlement, AuctionError>)
    requires
        old(sale)@.wf(),
    ensures
        final(sale)@.wf(),
        match accept_bid_step(old(sale)@, caller, winning_bidder, cosigner) {
            Ok((next, settlement)) => r == Ok::<Settlement, AuctionError>(settlement) && final(sale)@ == next,
            Err(e) => r == Err::<Settlement, AuctionError>(e),
        },
        r is Err ==> *final(sale) == *old(sale),
{
    let settlement = match &sale.stage {
        Stage::Open(a) => {
            if caller != a.seller {
                return Err(AuctionError::Unauthorized);
            }
            if cosigner != winning_bidder {
                return Err(AuctionError::Unauthorized);
            }
            let bid: Bid = match a.find(&winning_bidder) {
                Ok(bid) => bid,
                Err(e) => return Err(e),
            };
            let authority = match derive_vault_authority(&sale.mint, &sale.program_id) {
                Some(authority) => authority,
                None => return Err(AuctionError::AuthorityUnavailable),
            };
            Settlement { winner: winning_bidder, seller: a.seller, amount: bid.amount, authority }
        },
        _ => return Err(AuctionError::AuctionNotFound),
    };
    sale.stage = Stage::Closed;
    sale.vault = 0;
    Ok(settlement)
}

/// The seller (`caller`) withdraws the asset at time `now`; legal only once
/// the auction has started and while no bid is outstanding.
pub fn cancel_auction(sale: &mut Sale, caller: Address, now: i64) -> (r: Result<Release, AuctionError>)
    requires
        old(sale)@.wf(),
    ensures
        final(sale)@.wf(),
        match cancel_auction_step(old(sale)@, caller, now) {
            Ok((next, release)) => r == Ok::<Release, AuctionError>(release) && final(sale)@ == next,
            Err(e) => r == Err::<Release, AuctionError>(e),
        },
        r is Err ==> *final(sale) == *old(sale),
{
    let release = match &sale.stage {
        Stage::Open(a) => {
            if caller != a.seller {
                return Err(AuctionError::Unauthorized);
            }
            if now < a.start_time {
                return Err(AuctionError::AuctionNotStarted);
            }
            if a.bids.len() > 0 {
                return Err(AuctionError::BidsPlaced);
            }
            let authority = match derive_vault_authority(&sale.mint, &sale.program_id) {
                Some(authority) => authority,
                None => return Err(AuctionError::AuthorityUnavailable),
            };
            Release { seller: a.seller, authority }
        },
        _ => return Err(AuctionError::AuctionNotFound),
    };
    sale.stage = Stage::Closed;
    sale.vault = 0;
    Ok(release)
}

} // verus!
