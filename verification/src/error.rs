//! Why the auction rules refuse a call.

use vstd::prelude::*;

verus! {

/// Why the auction rules refuse a call.
#[derive(Clone, Copy, Debug, PartialEq, Eq, Structural)]
pub enum Error {
    /// There is no such auction.
    AuctionNotExist,
    /// The auction does not take bids yet.
    AuctionNotStarted,
    /// The auction takes bids already and can no longer be withdrawn.
    AuctionAlreadyStarted,
    /// The bid is below the least amount asked for, not above the bid that
    /// leads, or nothing at all.
    InvalidBidPrice,
    /// Every auction number has been given out.
    NoAvailableAuctionId,
    /// The auction would start in the past.
    AuctionStartTimeAlreadyPassed,
    /// The auction would not last long enough.
    InvalidTimeConfiguration,
    /// The caller does not hold the token.
    NotATokenOwner,
    /// The auction takes no more bids.
    AuctionAlreadyConcluded,
    /// The least amount for the next bid cannot be represented.
    BidOverflow,
    /// The caller bids in an auction of its own.
    BidOnOwnAuction,
    /// The new end of the auction cannot be represented.
    TimeOverflow,
    /// The token is locked already.
    TokenLocked,
    /// The auction has no name.
    EmptyAuctionName,
}

/// The families that the reasons for a refusal fall into.
#[derive(Clone, Copy, Debug, PartialEq, Eq, Structural)]
pub enum ErrorKind {
    /// What the call is about does not exist.
    NotFound,
    /// The caller may not do this.
    PermissionDenied,
    /// The auction asked for is ill-formed.
    InvalidConfiguration,
    /// The bid is not good enough.
    InvalidBid,
    /// A number cannot be represented.
    Overflow,
    /// The call comes at the wrong time in the life of an auction or a token.
    StateConflict,
}

/// The family of each reason.
pub open spec fn kind_of(e: Error) -> ErrorKind {
    match e {
        Error::AuctionNotExist => ErrorKind::NotFound,
        Error::NotATokenOwner | Error::BidOnOwnAuction => ErrorKind::PermissionDenied,
        Error::AuctionStartTimeAlreadyPassed
        | Error::InvalidTimeConfiguration
        | Error::EmptyAuctionName => ErrorKind::InvalidConfiguration,
        Error::InvalidBidPrice => ErrorKind::InvalidBid,
        Error::NoAvailableAuctionId | Error::BidOverflow | Error::TimeOverflow => ErrorKind::Overflow,
        Error::AuctionNotStarted
        | Error::AuctionAlreadyStarted
        | Error::AuctionAlreadyConcluded
        | Error::TokenLocked => ErrorKind::StateConflict,
    }
}

impl Error {
    /// The family that this reason falls into.
    pub fn kind(&self) -> (k: ErrorKind)
        ensures
            k == kind_of(*self),
    {
        match self {
            Error::AuctionNotExist => ErrorKind::NotFound,
            Error::NotATokenOwner | Error::BidOnOwnAuction => ErrorKind::PermissionDenied,
            Error::AuctionStartTimeAlreadyPassed
            | Error::InvalidTimeConfiguration
            | Error::EmptyAuctionName => ErrorKind::InvalidConfiguration,
            Error::InvalidBidPrice => ErrorKind::InvalidBid,
            Error::NoAvailableAuctionId | Error::BidOverflow | Error::TimeOverflow => ErrorKind::Overflow,
            Error::AuctionNotStarted
            | Error::AuctionAlreadyStarted
            | Error::AuctionAlreadyConcluded
            | Error::TokenLocked => ErrorKind::StateConflict,
        }
    }
}

} // verus!
