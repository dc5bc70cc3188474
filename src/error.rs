use vstd::prelude::*;

verus! {

/// Why an auction operation was refused. A refused operation changes nothing.
#[derive(Clone, Copy, Debug, PartialEq, Eq, Structural)]
pub enum AuctionError {
    /// A time-gated operation came before the auction's start time.
    AuctionNotStarted,
    /// Reserved for an end-time policy; no operation raises it.
    AuctionEnded,
    /// Reserved for an end-time policy; no operation raises it.
    AuctionNotEnded,
    /// Cancellation was asked for while bids are outstanding.
    BidsPlaced,
    /// No outstanding bid comes from the named bidder.
    BidNotFound,
    /// The caller does not hold the role the operation needs.
    Unauthorized,
    /// The auction record does not exist (never opened, or already closed).
    AuctionNotFound,
    /// The record's address is taken: an auction is open or was closed there.
    AddressInUse,
    /// The record has no room for another bid.
    CapacityExceeded,
    /// No program address could be derived for the vault authority.
    AuthorityUnavailable,
}

impl AuctionError {
    /// The description of each error.
    pub open spec fn message_spec(self) -> Seq<char> {
        match self {
            AuctionError::AuctionNotStarted => "Auction has not started yet."@,
            AuctionError::AuctionEnded => "Auction has already ended."@,
            AuctionError::AuctionNotEnded => "Auction has not ended yet."@,
            AuctionError::BidsPlaced => "Cannot cancel auction because bids have been placed."@,
            AuctionError::BidNotFound => "Bid not found."@,
            AuctionError::Unauthorized => "Caller is not authorized for this operation."@,
            AuctionError::AuctionNotFound => "Auction does not exist."@,
            AuctionError::AddressInUse => "Auction address is already in use."@,
            AuctionError::CapacityExceeded => "Auction has no room for another bid."@,
            AuctionError::AuthorityUnavailable => "Vault authority could not be derived."@,
        }
    }

    /// A short human-readable description.
    pub fn message(&self) -> (r: &'static str)
        ensures
            r@ == self.message_spec(),
    {
        match self {
            AuctionError::AuctionNotStarted => "Auction has not started yet.",
            AuctionError::AuctionEnded => "Auction has already ended.",
            AuctionError::AuctionNotEnded => "Auction has not ended yet.",
            AuctionError::BidsPlaced => "Cannot cancel auction because bids have been placed.",
            AuctionError::BidNotFound => "Bid not found.",
            AuctionError::Unauthorized => "Caller is not authorized for this operation.",
            AuctionError::AuctionNotFound => "Auction does not exist.",
            AuctionError::AddressInUse => "Auction address is already in use.",
            AuctionError::CapacityExceeded => "Auction has no room for another bid.",
            AuctionError::AuthorityUnavailable => "Vault authority could not be derived.",
        }
    }
}

} // verus!
