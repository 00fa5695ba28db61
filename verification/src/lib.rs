//! Auctions of non-fungible tokens: the rules of an on-chain auction house,
//! kept apart from the chain that hosts it.
//!
//! The library holds the auction table and decides. It never touches the
//! token registry or the currency ledger: what the registry holds for a token
//! is handed in as a [`nft::TokenEntry`], and what has to happen in the
//! registry and the ledger is handed back as a list of [`effects::Effect`].

pub mod primitives;
pub mod arith;
pub mod dispatch;
pub mod error;
pub mod nft;
pub mod traits;
pub mod store;
pub mod effects;
pub mod rules;
pub mod pallet;
pub mod laws;
pub mod world;

pub use arith::{bid_step, BID_ADD_BLOCKS, BID_STEP_PERC, MIN_AUCTION_DUR};
pub use dispatch::{ensure_signed, BadOrigin, DispatchError, RawOrigin};
pub use effects::{Effect, Settlement};
pub use error::{Error, ErrorKind};
pub use pallet::{check_new_auction, Event, Pallet};
pub use primitives::{AccountId, AuctionId, Balance, BlockNumber, ClassId, Token, TokenId};
pub use store::{AuctionStore, Store};
pub use traits::{
    Auction, AuctionInfo, AuctionType, CandleAuction, CandleAuctionInfo, EnglishAuction,
    EnglishAuctionInfo, TopUpAuction, TopUpAuctionInfo,
};
