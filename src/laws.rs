//! Properties of the auction that span several operations, proved over the
//! transitions that the instructions implement.
use vstd::prelude::*;
use crate::address::Address;
use crate::authority::vault_authority_of;
use crate::error::AuctionError;
use crate::ledger::{AuctionView, Bid, find_spec, first_bid_index, has_bid_from, lemma_first_bid_index_unique};
use crate::sale::{
    MAX_BIDS, SaleView, StageView, accept_bid_step, cancel_auction_step, place_bid_step,
    reject_bid_step, start_auction_step,
};

verus! {

/// The open record of a sale.
pub open spec fn record(s: SaleView) -> AuctionView
    recommends
        s.stage is Open,
{
    s.stage->Open_0
}

/// The sale with its open record's bids replaced.
pub open spec fn with_bids(s: SaleView, bids: Seq<Bid>) -> SaleView {
    SaleView { stage: StageView::Open(AuctionView { bids, ..record(s) }), ..s }
}

/// Every operation on the sale is refused: nothing can reopen, bid on, settle
/// or cancel it again.
pub open spec fn refuses_everything(s: SaleView) -> bool {
    &&& forall|seller: Address, holding: u64, start_time: i64, price: u64|
        #[trigger] start_auction_step(s, seller, holding, start_time, price) == Err::<SaleView, AuctionError>(
            AuctionError::AddressInUse,
        )
    &&& forall|bidder: Address, amount: u64, now: i64|
        #[trigger] place_bid_step(s, bidder, amount, now) == Err::<SaleView, AuctionError>(
            AuctionError::AuctionNotFound,
        )
    &&& forall|caller: Address, bidder: Address|
        #[trigger] reject_bid_step(s, caller, bidder) == Err::<SaleView, AuctionError>(
            AuctionError::AuctionNotFound,
        )
    &&& forall|caller: Address, winner: Address, cosigner: Address|
        (#[trigger] accept_bid_step(s, caller, winner, cosigner)) is Err
            && accept_bid_step(s, caller, winner, cosigner)->Err_0 == AuctionError::AuctionNotFound
    &&& forall|caller: Address, now: i64|
        (#[trigger] cancel_auction_step(s, caller, now)) is Err
            && cancel_auction_step(s, caller, now)->Err_0 == AuctionError::AuctionNotFound
}

/// A closed sale refuses every operation.
pub proof fn lemma_closed_refuses_everything(s: SaleView)
    requires
        s.stage is Closed,
    ensures
        refuses_everything(s),
{
}

/// After a successful settlement the record no longer exists, the vault is
/// empty, and every later operation on the sale is refused.
pub proof fn lemma_settlement_is_final(s: SaleView, caller: Address, winning_bidder: Address, cosigner: Address)
    requires
        s.wf(),
        accept_bid_step(s, caller, winning_bidder, cosigner) is Ok,
    ensures
        ({
            let next = accept_bid_step(s, caller, winning_bidder, cosigner)->Ok_0.0;
            &&& next.stage is Closed
            &&& next.vault == 0
            &&& refuses_everything(next)
        }),
{
    lemma_closed_refuses_everything(accept_bid_step(s, caller, winning_bidder, cosigner)->Ok_0.0);
}

/// After a successful cancellation the record no longer exists, the vault is
/// empty, and every later operation on the sale is refused.
pub proof fn lemma_cancellation_is_final(s: SaleView, caller: Address, now: i64)
    requires
        s.wf(),
        cancel_auction_step(s, caller, now) is Ok,
    ensures
        ({
            let next = cancel_auction_step(s, caller, now)->Ok_0.0;
            &&& next.stage is Closed
            &&& next.vault == 0
            &&& refuses_everything(next)
        }),
{
    lemma_closed_refuses_everything(cancel_auction_step(s, caller, now)->Ok_0.0);
}

/// While bids are outstanding no cancellation succeeds; the seller's, once
/// the auction has started, is refused with `BidsPlaced`.
pub proof fn lemma_cancel_refused_with_bids(s: SaleView, caller: Address, now: i64)
    requires
        s.wf(),
        s.stage is Open,
        record(s).bids.len() > 0,
    ensures
        cancel_auction_step(s, caller, now) is Err,
        caller == record(s).seller && now >= record(s).start_time ==> cancel_auction_step(s, caller, now)
            == Err::<(SaleView, crate::sale::Release), AuctionError>(AuctionError::BidsPlaced),
{
}

/// The sale after the seller has rejected, `n` times, the earliest
/// outstanding bid (by naming its bidder).
pub open spec fn reject_earliest(s: SaleView, n: nat) -> SaleView
    decreases n,
{
    if n == 0 {
        s
    } else {
        let t = reject_earliest(s, (n - 1) as nat);
        if t.stage is Open && record(t).bids.len() > 0 {
            match reject_bid_step(t, record(t).seller, record(t).bids[0].bidder) {
                Ok(u) => u,
                Err(_) => t,
            }
        } else {
            t
        }
    }
}

/// Rejecting the earliest bid `k` times leaves the bids after the first `k`,
/// and each of those rejections succeeds.
pub proof fn lemma_reject_earliest(s: SaleView, k: nat)
    requires
        s.wf(),
        s.stage is Open,
        k <= record(s).bids.len(),
    ensures
        reject_earliest(s, k) == with_bids(s, record(s).bids.subrange(k as int, record(s).bids.len() as int)),
        k < record(s).bids.len() ==> reject_bid_step(reject_earliest(s, k), record(s).seller, record(s).bids[k as int].bidder)
            == Ok::<SaleView, AuctionError>(reject_earliest(s, k + 1)),
    decreases k,
{
    let bids = record(s).bids;
    let len = bids.len() as int;
    if k > 0 {
        lemma_reject_earliest(s, (k - 1) as nat);
        let tb = bids.subrange(k - 1, len);
        assert(first_bid_index(tb, tb[0].bidder) == Some(0nat));
        assert(tb.remove(0) =~= bids.subrange(k as int, len));
    } else {
        assert(bids.subrange(0, len) =~= bids);
    }
    if k < len {
        lemma_reject_earliest_step(s, k);
    }
}

proof fn lemma_reject_earliest_step(s: SaleView, k: nat)
    requires
        s.wf(),
        s.stage is Open,
        k < record(s).bids.len(),
        reject_earliest(s, k) == with_bids(s, record(s).bids.subrange(k as int, record(s).bids.len() as int)),
    ensures
        reject_bid_step(reject_earliest(s, k), record(s).seller, record(s).bids[k as int].bidder)
            == Ok::<SaleView, AuctionError>(reject_earliest(s, k + 1)),
{
    let bids = record(s).bids;
    let len = bids.len() as int;
    let tb = bids.subrange(k as int, len);
    assert(tb[0] == bids[k as int]);
    assert(first_bid_index(tb, tb[0].bidder) == Some(0nat));
    assert(tb.remove(0) =~= bids.subrange(k as int + 1, len));
    assert(reject_earliest(s, k + 1) == with_bids(s, bids.subrange(k as int + 1, len)));
}

/// Once the seller has rejected every outstanding bid (each rejection
/// succeeding), the seller's cancellation succeeds from the start time on,
/// given that the vault authority can be derived.
pub proof fn lemma_cancel_after_rejecting_all(s: SaleView, now: i64)
    requires
        s.wf(),
        s.stage is Open,
        now >= record(s).start_time,
        vault_authority_of(s.mint, s.program_id) is Some,
    ensures
        forall|k: nat| k < record(s).bids.len() ==> #[trigger] reject_bid_step(
            reject_earliest(s, k),
            record(s).seller,
            record(s).bids[k as int].bidder,
        ) == Ok::<SaleView, AuctionError>(reject_earliest(s, k + 1)),
        record(reject_earliest(s, record(s).bids.len())).bids.len() == 0,
        cancel_auction_step(reject_earliest(s, record(s).bids.len()), record(s).seller, now) is Ok,
{
    let n = record(s).bids.len();
    assert forall|k: nat| k < n implies #[trigger] reject_bid_step(
        reject_earliest(s, k),
        record(s).seller,
        record(s).bids[k as int].bidder,
    ) == Ok::<SaleView, AuctionError>(reject_earliest(s, k + 1)) by {
        lemma_reject_earliest(s, k);
    }
    lemma_reject_earliest(s, n);
}

/// Placing bids `b1`, `b2`, `b3` in that order, where `b1`'s bidder had no
/// bid before, makes a lookup of that bidder find `b1`, whether or not `b2`
/// or `b3` come from the same bidder.
pub proof fn lemma_find_prefers_earliest(s: SaleView, b1: Bid, b2: Bid, b3: Bid, now: i64)
    requires
        s.wf(),
        s.stage is Open,
        now >= record(s).start_time,
        record(s).bids.len() + 3 <= MAX_BIDS,
        !has_bid_from(record(s).bids, b1.bidder),
    ensures
        match place_bid_step(s, b1.bidder, b1.amount, now) {
            Ok(s1) => match place_bid_step(s1, b2.bidder, b2.amount, now) {
                Ok(s2) => match place_bid_step(s2, b3.bidder, b3.amount, now) {
                    Ok(s3) => find_spec(record(s3).bids, b1.bidder) == Ok::<Bid, AuctionError>(b1),
                    Err(_) => false,
                },
                Err(_) => false,
            },
            Err(_) => false,
        },
{
    let bids = record(s).bids;
    let all = bids.push(b1).push(b2).push(b3);
    let i = bids.len() as int;
    assert(all[i] == b1);
    assert forall|j: int| 0 <= j < i implies all[j].bidder != b1.bidder by {
        assert(all[j] == bids[j]);
    }
    lemma_first_bid_index_unique(all, b1.bidder, i);
}

/// Bidding before the start time is refused with `AuctionNotStarted`; at the
/// start time itself, with room in the record, the bid is appended.
pub proof fn lemma_time_gate(s: SaleView, bidder: Address, amount: u64, now: i64)
    requires
        s.wf(),
        s.stage is Open,
    ensures
        now < record(s).start_time ==> place_bid_step(s, bidder, amount, now) == Err::<SaleView, AuctionError>(
            AuctionError::AuctionNotStarted,
        ),
        now == record(s).start_time && record(s).bids.len() < MAX_BIDS ==> place_bid_step(s, bidder, amount, now)
            == Ok::<SaleView, AuctionError>(with_bids(s, record(s).bids.push(Bid { bidder, amount }))),
{
}

} // verus!
