//! Core auction domain values: items, amounts, bidders and bids.

use vstd::prelude::*;

verus! {

/// Non-negative integral currency unit.
pub type Amount = u64;

/// Identifier of one auction item.
pub type ItemId = String;

/// Who placed a bid: the automated agent itself (`Sniper`) or anybody else.
#[derive(Copy, Clone, PartialEq, Eq, Structural, Debug)]
pub enum Bidder {
    Sniper,
    Other,
}

/// A bid as observed at the auction house.
#[derive(Copy, Clone, PartialEq, Eq, Structural, Debug)]
pub struct BidDetails {
    pub bidder: Bidder,
    pub price: Amount,
}

impl BidDetails {
    /// A price outbids this bid exactly when it is strictly greater.
    pub open spec fn spec_is_outbidded_by(self, price: Amount) -> bool {
        price > self.price
    }

    pub fn is_outbidded_by(self, price: Amount) -> (r: bool)
        ensures
            r == self.spec_is_outbidded_by(price),
    {
        price > self.price
    }

    /// The minimum price that would outbid this bid.
    pub open spec fn spec_next_valid_bid(self) -> int {
        self.price + 1
    }

    pub fn next_valid_bid(self) -> (r: Amount)
        requires
            self.price < Amount::MAX,
        ensures
            r == self.spec_next_valid_bid(),
    {
        self.price + 1
    }
}

/// An intent to place a bid of `price` on `item`.
#[derive(Debug, PartialEq, Eq)]
pub struct ItemBid {
    pub item: ItemId,
    pub price: Amount,
}

impl Clone for ItemBid {
    fn clone(&self) -> (r: Self)
        ensures
            r == *self,
    {
        ItemBid { item: self.item.clone(), price: self.price }
    }
}

} // verus!
