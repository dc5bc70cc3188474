//! An escrow auction for a single non-fungible asset: the seller locks the
//! asset in a vault that only a derived program authority can release, bidders
//! record promises to pay, and the seller either settles with one bidder,
//! rejects bids, or cancels while no bid is outstanding.

pub mod address;
pub mod authority;
pub mod error;
pub mod laws;
pub mod ledger;
pub mod sale;
pub mod unlimited_auction;

pub use address::Address;
pub use authority::VaultAuthority;
pub use error::AuctionError;
pub use ledger::{Auction, Bid};
pub use sale::{Release, Sale, Settlement, Stage, MAX_BIDS};
