//! Append-only ordered event log with a writer and polling readers.

use vstd::prelude::*;
use crate::auction_house;
use crate::bidding_engine;
use crate::persistence::InMemoryTransaction;
use crate::ui;

verus! {

/// Position of a record in the event log: totally ordered, assigned by the
/// log so that every append receives an offset strictly greater than all
/// offsets assigned before it.
#[derive(Copy, Clone, PartialEq, Eq, PartialOrd, Ord, Structural, Debug)]
pub struct Offset(pub u64);

/// Everything that can appear in the event log.
#[derive(Debug, PartialEq, Eq)]
pub enum EventDetails {
    /// Observed at the auction house.
    AuctionHouse(auction_house::Event),
    /// Submitted by the user interface.
    Ui(ui::Event),
    /// Emitted by the bidding engine.
    BiddingEngine(bidding_engine::Event),
}

impl Clone for EventDetails {
    fn clone(&self) -> (r: Self)
        ensures
            r == *self,
    {
        match self {
            EventDetails::AuctionHouse(event) => EventDetails::AuctionHouse(event.clone()),
            EventDetails::Ui(event) => EventDetails::Ui(event.clone()),
            EventDetails::BiddingEngine(event) => EventDetails::BiddingEngine(event.clone()),
        }
    }
}

/// One stored record: the event and the offset the log assigned to it.
#[derive(Debug, PartialEq, Eq)]
pub struct EventRecord {
    pub offset: Offset,
    pub details: EventDetails,
}

impl Clone for EventRecord {
    fn clone(&self) -> (r: Self)
        ensures
            r == *self,
    {
        EventRecord { offset: self.offset, details: self.details.clone() }
    }
}

/// The in-memory event log. Record `i` carries offset `i + 1`, so offsets
/// are dense, start at one, and increase strictly in storage order.
pub struct InMemoryEventLog {
    records: Vec<EventRecord>,
}

impl View for InMemoryEventLog {
    type V = Seq<EventRecord>;

    closed spec fn view(&self) -> Seq<EventRecord> {
        self.records@
    }
}

impl InMemoryEventLog {
    #[verifier::type_invariant]
    spec fn wf(self) -> bool {
        forall|i: int| 0 <= i < self.records@.len() ==> (#[trigger] self.records@[i]).offset.0 == i + 1
    }

    pub fn new() -> (r: Self)
        ensures
            r@ == Seq::<EventRecord>::empty(),
    {
        InMemoryEventLog { records: Vec::new() }
    }

    /// How many records the log holds.
    pub fn len(&self) -> (n: usize)
        ensures
            n == self@.len(),
    {
        self.records.len()
    }

    /// Where reading with cursor `after` starts: at the first record, or just
    /// past the record `after` refers to; a cursor beyond the log reads nothing.
    pub open spec fn spec_start(self, after: Option<Offset>) -> int {
        match after {
            None => 0,
            Some(offset) => {
                if offset.0 <= self@.len() {
                    offset.0 as int
                } else {
                    self@.len() as int
                }
            },
        }
    }

    /// Append each event, assigning it the next offset; the log grows at the
    /// end and nothing already stored changes.
    pub fn write_tr(&mut self, transaction: &mut InMemoryTransaction, events: Vec<EventDetails>)
        requires
            old(self)@.len() + events@.len() <= u64::MAX,
        ensures
            final(self)@.len() == old(self)@.len() + events@.len(),
            forall|i: int| 0 <= i < old(self)@.len() ==> final(self)@[i] == old(self)@[i],
            forall|i: int|
                old(self)@.len() <= i < final(self)@.len() ==> {
                    &&& (#[trigger] final(self)@[i]).details == events@[i - old(self)@.len()]
                    &&& final(self)@[i].offset.0 == i + 1
                },
    {
        proof {
            use_type_invariant(&*self);
        }
        let ghost snapshot = self.records@;
        let ghost all_events = events@;
        let mut records: Vec<EventRecord> = Vec::new();
        std::mem::swap(&mut records, &mut self.records);
        let mut events = events;
        let n = events.len();
        let mut i: usize = 0;
        while i < n
            invariant
                n == i + events@.len(),
                n == all_events.len(),
                snapshot.len() + n <= u64::MAX,
                records@.len() == snapshot.len() + i,
                forall|j: int| 0 <= j < snapshot.len() ==> records@[j] == snapshot[j],
                forall|j: int| 0 <= j < records@.len() ==> (#[trigger] records@[j]).offset.0 == j + 1,
                forall|j: int|
                    snapshot.len() <= j < records@.len() ==> (#[trigger] records@[j]).details
                        == all_events[j - snapshot.len()],
                events@ == all_events.skip(i as int),
            decreases n - i,
        {
            let offset = Offset((records.len() as u64) + 1);
            let details = events.remove(0);
            records.push(EventRecord { offset, details });
            i += 1;
        }
        self.records = records;
    }

    /// Read, in storage order, up to `max_count` records past the cursor.
    pub fn read(&self, after: Option<Offset>, max_count: usize) -> (r: Vec<EventRecord>)
        ensures
            ({
                let start = self.spec_start(after);
                let end = if start + max_count <= self@.len() {
                    start + max_count
                } else {
                    self@.len() as int
                };
                r@ == self@.subrange(start, end)
            }),
            forall|j: int|
                0 <= j < r@.len() ==> (#[trigger] r@[j]).offset.0 == self.spec_start(after) + j
                    + 1,
    {
        proof {
            use_type_invariant(&*self);
        }
        let len = self.records.len();
        let start: usize = match after {
            None => 0,
            Some(offset) => {
                if offset.0 <= len as u64 {
                    offset.0 as usize
                } else {
                    len
                }
            },
        };
        let end: usize = if max_count <= len - start {
            start + max_count
        } else {
            len
        };
        let mut out: Vec<EventRecord> = Vec::new();
        let mut i: usize = start;
        while i < end
            invariant
                start <= i <= end <= self@.len(),
                out@ == self@.subrange(start as int, i as int),
            decreases end - i,
        {
            out.push(self.records[i].clone());
            proof {
                assert(out@ =~= self@.subrange(start as int, i + 1));
            }
            i += 1;
        }
        out
    }
}

} // verus!
