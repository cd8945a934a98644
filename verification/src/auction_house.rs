//! Events produced by the auction-house client.

use vstd::prelude::*;
use crate::auction::{BidDetails, ItemId};

verus! {

/// What happened at the auction house for one item.
#[derive(Copy, Clone, PartialEq, Eq, Structural, Debug)]
pub enum EventDetails {
    /// Somebody (possibly us) placed a bid.
    Bid(BidDetails),
    /// The auction was closed.
    Closed,
}

/// An auction-house event, tagged with the item it concerns.
#[derive(Debug, PartialEq, Eq)]
pub struct Event {
    pub item: ItemId,
    pub event: EventDetails,
}

impl Clone for Event {
    fn clone(&self) -> (r: Self)
        ensures
            r == *self,
    {
        Event { item: self.item.clone(), event: self.event }
    }
}

} // verus!
