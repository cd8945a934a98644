//! Events produced by the user interface.

use vstd::prelude::*;
use crate::auction::ItemBid;

verus! {

/// An operator action.
#[derive(Debug, PartialEq, Eq)]
pub enum Event {
    /// The user set the maximum price we may bid on an item.
    MaxBidSet(ItemBid),
}

impl Clone for Event {
    fn clone(&self) -> (r: Self)
        ensures
            r == *self,
    {
        match self {
            Event::MaxBidSet(item_bid) => Event::MaxBidSet(item_bid.clone()),
        }
    }
}

} // verus!
