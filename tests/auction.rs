use std::str::FromStr;

use anchor_lang::prelude::Pubkey;
use unlimited_auction::authority::derive_vault_authority;
use unlimited_auction::unlimited_auction::{
    accept_bid, cancel_auction, place_bid, reject_bid, start_auction,
};
use unlimited_auction::{Address, AuctionError, Bid, Sale, Stage, MAX_BIDS};

const PROGRAM: &str = "HzkwCc34XLXCupDyzZKTu2dhgfUQe7UUY9v6Q7tRmDL4";

fn key(n: u8) -> Address {
    Address::new([n; 32])
}

fn program() -> Address {
    Address::new(Pubkey::from_str(PROGRAM).unwrap().to_bytes())
}

fn seller() -> Address {
    key(1)
}

fn open_sale(asset: Address, start_time: i64, starting_price: u64) -> Sale {
    let mut sale = Sale::new(asset, program());
    start_auction(&mut sale, seller(), 1, start_time, starting_price).unwrap();
    sale
}

fn bids(sale: &Sale) -> Vec<Bid> {
    sale.auction().unwrap().bids.clone()
}

fn snapshot(sale: &Sale) -> String {
    format!("{:?}", sale)
}

#[test]
fn scenario_bid_reject_accept() {
    let (a, b) = (key(10), key(11));
    let mut sale = open_sale(key(100), 100, 50);
    assert_eq!(sale.vault, 1);
    place_bid(&mut sale, a, 60, 100).unwrap();
    assert_eq!(bids(&sale), vec![Bid { bidder: a, amount: 60 }]);
    place_bid(&mut sale, b, 80, 100).unwrap();
    assert_eq!(bids(&sale), vec![Bid { bidder: a, amount: 60 }, Bid { bidder: b, amount: 80 }]);
    reject_bid(&mut sale, seller(), a).unwrap();
    assert_eq!(bids(&sale), vec![Bid { bidder: b, amount: 80 }]);
    let settlement = accept_bid(&mut sale, seller(), b, b).unwrap();
    assert_eq!(settlement.winner, b);
    assert_eq!(settlement.seller, seller());
    assert_eq!(settlement.amount, 80);
    let expected = derive_vault_authority(&key(100), &program()).unwrap();
    assert_eq!(settlement.authority, expected);
    assert!(matches!(sale.stage, Stage::Closed));
    assert_eq!(sale.vault, 0);
}

#[test]
fn scenario_cancel_before_and_at_start() {
    let mut sale = open_sale(key(101), 100, 0);
    let before = snapshot(&sale);
    assert_eq!(cancel_auction(&mut sale, seller(), 50), Err(AuctionError::AuctionNotStarted));
    assert_eq!(snapshot(&sale), before);
    let release = cancel_auction(&mut sale, seller(), 100).unwrap();
    assert_eq!(release.seller, seller());
    assert_eq!(release.authority, derive_vault_authority(&key(101), &program()).unwrap());
    assert!(matches!(sale.stage, Stage::Closed));
    assert_eq!(sale.vault, 0);
}

#[test]
fn failed_accept_leaves_sale_unchanged() {
    let (a, b, c) = (key(10), key(11), key(12));
    let mut sale = open_sale(key(102), 0, 5);
    place_bid(&mut sale, a, 7, 1).unwrap();
    let before = snapshot(&sale);
    assert_eq!(accept_bid(&mut sale, seller(), c, c), Err(AuctionError::BidNotFound));
    assert_eq!(snapshot(&sale), before);
    assert_eq!(accept_bid(&mut sale, b, a, a), Err(AuctionError::Unauthorized));
    assert_eq!(snapshot(&sale), before);
    assert_eq!(accept_bid(&mut sale, seller(), a, b), Err(AuctionError::Unauthorized));
    assert_eq!(snapshot(&sale), before);
    assert_eq!(sale.vault, 1);
}

#[test]
fn closed_sale_refuses_every_operation() {
    let a = key(10);
    let mut sale = open_sale(key(103), 0, 5);
    place_bid(&mut sale, a, 9, 0).unwrap();
    accept_bid(&mut sale, seller(), a, a).unwrap();
    assert_eq!(place_bid(&mut sale, a, 9, 10), Err(AuctionError::AuctionNotFound));
    assert_eq!(reject_bid(&mut sale, seller(), a), Err(AuctionError::AuctionNotFound));
    assert_eq!(accept_bid(&mut sale, seller(), a, a), Err(AuctionError::AuctionNotFound));
    assert_eq!(cancel_auction(&mut sale, seller(), 10), Err(AuctionError::AuctionNotFound));
    assert_eq!(start_auction(&mut sale, seller(), 1, 0, 5), Err(AuctionError::AddressInUse));

    let mut cancelled = open_sale(key(104), 0, 5);
    cancel_auction(&mut cancelled, seller(), 0).unwrap();
    assert_eq!(cancel_auction(&mut cancelled, seller(), 0), Err(AuctionError::AuctionNotFound));
    assert_eq!(place_bid(&mut cancelled, a, 1, 0), Err(AuctionError::AuctionNotFound));
}

#[test]
fn operations_before_opening_find_no_record() {
    let mut sale = Sale::new(key(105), program());
    assert_eq!(place_bid(&mut sale, key(10), 1, 0), Err(AuctionError::AuctionNotFound));
    assert_eq!(cancel_auction(&mut sale, seller(), 0), Err(AuctionError::AuctionNotFound));
    assert_eq!(sale.vault, 0);
}

#[test]
fn cancel_refused_while_bids_then_succeeds() {
    let (a, b) = (key(10), key(11));
    let mut sale = open_sale(key(106), 10, 5);
    place_bid(&mut sale, a, 1, 10).unwrap();
    place_bid(&mut sale, b, 2, 11).unwrap();
    place_bid(&mut sale, a, 3, 12).unwrap();
    assert_eq!(cancel_auction(&mut sale, seller(), 20), Err(AuctionError::BidsPlaced));
    reject_bid(&mut sale, seller(), a).unwrap();
    assert_eq!(cancel_auction(&mut sale, seller(), 20), Err(AuctionError::BidsPlaced));
    reject_bid(&mut sale, seller(), b).unwrap();
    reject_bid(&mut sale, seller(), a).unwrap();
    assert!(bids(&sale).is_empty());
    assert!(cancel_auction(&mut sale, seller(), 20).is_ok());
}

#[test]
fn find_returns_earliest_of_duplicates() {
    let (a, b) = (key(10), key(11));
    let mut sale = open_sale(key(107), 0, 5);
    place_bid(&mut sale, a, 10, 0).unwrap();
    place_bid(&mut sale, b, 20, 0).unwrap();
    place_bid(&mut sale, a, 30, 0).unwrap();
    let auction = sale.auction().unwrap();
    assert_eq!(auction.find(&a), Ok(Bid { bidder: a, amount: 10 }));
    assert_eq!(auction.find(&b), Ok(Bid { bidder: b, amount: 20 }));
    assert_eq!(auction.find(&key(12)), Err(AuctionError::BidNotFound));
    let settlement = accept_bid(&mut sale, seller(), a, a).unwrap();
    assert_eq!(settlement.amount, 10);
}

#[test]
fn reject_removes_only_the_earliest_duplicate() {
    let (a, b) = (key(10), key(11));
    let mut sale = open_sale(key(108), 0, 5);
    place_bid(&mut sale, a, 10, 0).unwrap();
    place_bid(&mut sale, b, 20, 0).unwrap();
    place_bid(&mut sale, a, 30, 0).unwrap();
    reject_bid(&mut sale, seller(), a).unwrap();
    assert_eq!(bids(&sale), vec![Bid { bidder: b, amount: 20 }, Bid { bidder: a, amount: 30 }]);
    let before = snapshot(&sale);
    assert_eq!(reject_bid(&mut sale, seller(), key(12)), Err(AuctionError::BidNotFound));
    assert_eq!(reject_bid(&mut sale, b, b), Err(AuctionError::Unauthorized));
    assert_eq!(snapshot(&sale), before);
}

#[test]
fn place_bid_time_gate() {
    let a = key(10);
    let mut sale = open_sale(key(109), 100, 5);
    let before = snapshot(&sale);
    assert_eq!(place_bid(&mut sale, a, 60, 99), Err(AuctionError::AuctionNotStarted));
    assert_eq!(place_bid(&mut sale, a, 60, i64::MIN), Err(AuctionError::AuctionNotStarted));
    assert_eq!(snapshot(&sale), before);
    assert_eq!(place_bid(&mut sale, a, 60, 100), Ok(()));
    assert_eq!(bids(&sale), vec![Bid { bidder: a, amount: 60 }]);
}

#[test]
fn bids_below_starting_price_and_from_seller_are_kept() {
    let mut sale = open_sale(key(110), 0, 50);
    place_bid(&mut sale, key(10), 0, 0).unwrap();
    place_bid(&mut sale, seller(), 1, i64::MAX).unwrap();
    assert_eq!(bids(&sale).len(), 2);
}

#[test]
fn capacity_is_bounded() {
    let mut sale = open_sale(key(111), 0, 5);
    for i in 0..MAX_BIDS {
        place_bid(&mut sale, key(10), i as u64, 0).unwrap();
    }
    let before = snapshot(&sale);
    assert_eq!(place_bid(&mut sale, key(11), 1, 0), Err(AuctionError::CapacityExceeded));
    assert_eq!(snapshot(&sale), before);
}

#[test]
fn start_auction_checks_holder_and_address() {
    let mut sale = Sale::new(key(112), program());
    assert_eq!(start_auction(&mut sale, seller(), 0, 0, 5), Err(AuctionError::Unauthorized));
    assert!(matches!(sale.stage, Stage::Unopened));
    assert_eq!(start_auction(&mut sale, seller(), 1, 7, 5), Ok(()));
    let auction = sale.auction().unwrap();
    assert_eq!(auction.seller, seller());
    assert_eq!(auction.mint, key(112));
    assert_eq!(auction.start_time, 7);
    assert_eq!(auction.starting_price, 5);
    assert!(auction.bids.is_empty());
    assert!(sale.is_well_formed());
    assert_eq!(start_auction(&mut sale, key(2), 1, 0, 5), Err(AuctionError::AddressInUse));
}

#[test]
fn cancel_by_non_seller_is_unauthorized() {
    let mut sale = open_sale(key(113), 0, 5);
    assert_eq!(cancel_auction(&mut sale, key(2), 10), Err(AuctionError::Unauthorized));
    assert_eq!(sale.vault, 1);
}

#[test]
fn vault_authority_matches_program_address() {
    let mint = key(114);
    let derived = derive_vault_authority(&mint, &program()).unwrap();
    let mint_key = Pubkey::new_from_array(mint.to_bytes());
    let (expected, bump) = Pubkey::find_program_address(
        &[b"sale", mint_key.as_ref()],
        &Pubkey::from_str(PROGRAM).unwrap(),
    );
    assert_eq!(derived.address.to_bytes(), expected.to_bytes());
    assert_eq!(derived.bump, bump);
    assert_ne!(derived.address, mint);
    assert_ne!(derived.address, program());
    assert_eq!(derive_vault_authority(&mint, &program()), Some(derived));
    assert_ne!(derive_vault_authority(&key(115), &program()).unwrap().address, derived.address);
}

#[test]
fn signer_seeds_carry_tag_mint_and_bump() {
    let mint = key(116);
    let authority = derive_vault_authority(&mint, &program()).unwrap();
    let seeds = authority.signer_seeds(&mint);
    assert_eq!(seeds, vec![b"sale".to_vec(), vec![116u8; 32], vec![authority.bump]]);
    let slices: Vec<&[u8]> = seeds.iter().map(|s| s.as_slice()).collect();
    let address = Pubkey::create_program_address(&slices, &Pubkey::from_str(PROGRAM).unwrap()).unwrap();
    assert_eq!(address.to_bytes(), authority.address.to_bytes());
}

#[test]
fn address_equality_is_bytewise() {
    let mut bytes = [3u8; 32];
    assert_eq!(Address::new(bytes), Address::new(bytes));
    bytes[31] = 4;
    assert_ne!(Address::new(bytes), Address::new([3u8; 32]));
}

#[test]
fn error_messages() {
    assert_eq!(AuctionError::AuctionNotStarted.message(), "Auction has not started yet.");
    assert_eq!(AuctionError::BidsPlaced.message(), "Cannot cancel auction because bids have been placed.");
    assert_eq!(AuctionError::BidNotFound.message(), "Bid not found.");
    assert_eq!(AuctionError::AuctionEnded.message(), "Auction has already ended.");
    assert_eq!(AuctionError::AuctionNotEnded.message(), "Auction has not ended yet.");
}

#[test]
fn no_operation_raises_end_time_errors() {
    let a = key(10);
    let mut sale = open_sale(key(117), 0, 5);
    for t in [0i64, 1_000_000, i64::MAX] {
        assert_eq!(place_bid(&mut sale, a, 1, t), Ok(()));
    }
    assert!(accept_bid(&mut sale, seller(), a, a).is_ok());
}
