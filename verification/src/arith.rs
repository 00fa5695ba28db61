//! The amounts and spans that the auction rules are made of.

use vstd::prelude::*;
use crate::primitives::Balance;

verus! {

/// Share of a bid, in percent, by which the next bid has to exceed it.
pub const BID_STEP_PERC: u32 = 10;

/// A bid that comes with fewer blocks than this left moves the end of the
/// auction this many blocks past the bid.
pub const BID_ADD_BLOCKS: u64 = 10;

/// An auction has to last longer than this many blocks.
pub const MIN_AUCTION_DUR: u64 = 10;

/// `percent` hundredths of `amount`, rounded up to a whole unit.
pub open spec fn ceil_percent(amount: int, percent: int) -> int {
    (amount * percent + 99) / 100
}

/// The least amount that may follow a bid of `amount`.
pub open spec fn next_minimal_bid(amount: int) -> int {
    amount + ceil_percent(amount, BID_STEP_PERC as int)
}

/// Calls `sp_runtime::Permill::from_percent` and, on what it gives,
/// `Permill::mul_ceil`. The first takes a `percent` above 100 for 100 and is
/// then exactly that many hundredths; the second multiplies by that share and
/// rounds any fraction up. The product never exceeds `amount`, so nothing
/// overflows.
#[verifier::external_body]
fn permill_mul_ceil(percent: u32, amount: Balance) -> (part: Balance)
    ensures
        part == ceil_percent(amount as int, if percent > 100 { 100 } else { percent as int }),
{
    sp_runtime::Permill::from_percent(percent).mul_ceil(amount)
}

/// The step that a bid of `amount` puts between itself and the next bid.
pub fn bid_step(amount: Balance) -> (step: Balance)
    ensures
        step == ceil_percent(amount as int, BID_STEP_PERC as int),
{
    permill_mul_ceil(BID_STEP_PERC, amount)
}

} // verus!
