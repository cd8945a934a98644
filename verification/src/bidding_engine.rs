//! The bidding engine: a pure state machine that reacts to auction-house
//! and user events and decides whether to place a new bid.

use vstd::prelude::*;
use vstd::string::StringExecFns;
use crate::auction::{Amount, BidDetails, Bidder, ItemBid, ItemId};
use crate::auction_house;
use crate::event_log;
use crate::event_log::InMemoryEventLog;
use crate::persistence::{InMemoryConnection, InMemoryTransaction};
use crate::progress::ServiceId;
use crate::store::KeyValueStore;
use crate::ui;

verus! {

/// Rejection taxonomy for invalid user-submitted events. Defined for
/// completeness; the current transition logic never raises either variant
/// and instead silently ignores invalid bids.
#[derive(Copy, Clone, PartialEq, Eq, Structural, Debug)]
pub enum UserError {
    AlreadyClosed,
    TooLow,
}

/// An auction-house event referenced an item the engine has no state for.
#[derive(Debug, PartialEq, Eq)]
pub enum AuctionError {
    UnknownAuction(ItemId),
}

impl Clone for AuctionError {
    fn clone(&self) -> (r: Self)
        ensures
            r == *self,
    {
        match self {
            AuctionError::UnknownAuction(item_id) => {
                AuctionError::UnknownAuction(item_id.clone())
            },
        }
    }
}

/// An event emitted by the bidding engine, written back to the event log.
#[derive(Debug, PartialEq, Eq)]
pub enum Event {
    /// We are placing a bid.
    Bid(ItemBid),
    /// An auction-house event caused an error.
    AuctionError(AuctionError),
    /// A user event caused an error.
    UserError(UserError),
}

impl Clone for Event {
    fn clone(&self) -> (r: Self)
        ensures
            r == *self,
    {
        match self {
            Event::Bid(item_bid) => Event::Bid(item_bid.clone()),
            Event::AuctionError(e) => Event::AuctionError(e.clone()),
            Event::UserError(e) => Event::UserError(*e),
        }
    }
}

/// What the engine knows about one auction: the highest bid observed so
/// far, if any, and whether the auction has closed.
#[derive(Copy, Clone, PartialEq, Eq, Structural, Debug)]
pub struct AuctionState {
    pub highest_bid: Option<BidDetails>,
    pub closed: bool,
}

impl Default for AuctionState {
    fn default() -> (r: Self)
        ensures
            r == (AuctionState { highest_bid: None, closed: false }),
    {
        AuctionState { highest_bid: None, closed: false }
    }
}

impl AuctionState {
    /// Transition on one auction-house event: `Closed` closes the auction
    /// (idempotently); a `Bid` replaces the highest bid exactly when the
    /// auction is open and the bid outbids the current highest bid, if any.
    pub open spec fn spec_handle_auction_event(self, event: auction_house::EventDetails) -> AuctionState {
        match event {
            auction_house::EventDetails::Bid(bid) => {
                if !self.closed && (self.highest_bid is None
                    || self.highest_bid->0.spec_is_outbidded_by(bid.price)) {
                    AuctionState { highest_bid: Some(bid), ..self }
                } else {
                    self
                }
            },
            auction_house::EventDetails::Closed => AuctionState { closed: true, ..self },
        }
    }

    pub fn handle_auction_event(self, event: auction_house::EventDetails) -> (r: Self)
        ensures
            r == self.spec_handle_auction_event(event),
    {
        match event {
            auction_house::EventDetails::Bid(bid) => {
                let outbids = match self.highest_bid {
                    None => true,
                    Some(highest) => highest.is_outbidded_by(bid.price),
                };
                if !self.closed && outbids {
                    AuctionState { highest_bid: Some(bid), ..self }
                } else {
                    self
                }
            },
            auction_house::EventDetails::Closed => AuctionState { closed: true, ..self },
        }
    }

    /// The price of our next bid, if we should place one: none once closed,
    /// the opening bid of zero while nobody has bid, none while we are
    /// already the highest bidder, and otherwise the minimum outbidding
    /// price provided it does not exceed `max_price`.
    pub open spec fn spec_get_next_bid(self, max_price: Amount) -> Option<Amount> {
        if self.closed {
            None
        } else {
            match self.highest_bid {
                None => Some(0u64),
                Some(highest_bid) => {
                    if highest_bid.bidder is Sniper {
                        None
                    } else if highest_bid.spec_next_valid_bid() <= max_price {
                        Some((highest_bid.price + 1) as Amount)
                    } else {
                        None
                    }
                },
            }
        }
    }

    pub fn get_next_bid(self, max_price: Amount) -> (r: Option<Amount>)
        ensures
            r == self.spec_get_next_bid(max_price),
    {
        if self.closed {
            return None;
        }

        match self.highest_bid {
            None => Some(0),

            // our bid is the highest already
            Some(BidDetails { bidder: Bidder::Sniper, .. }) => None,
            Some(highest_bid) => {
                if highest_bid.price < max_price {
                    Some(highest_bid.next_valid_bid())
                } else {
                    None
                }
            },
        }
    }
}

/// The persisted decision state for one auction item: the maximum price
/// the user authorized us to bid, and the observed auction state.
#[derive(Copy, Clone, PartialEq, Eq, Structural, Debug)]
pub struct AuctionBiddingState {
    pub max_bid: Amount,
    pub state: AuctionState,
}

impl Default for AuctionBiddingState {
    fn default() -> (r: Self)
        ensures
            r == (AuctionBiddingState {
                max_bid: 0,
                state: AuctionState { highest_bid: None, closed: false },
            }),
    {
        AuctionBiddingState {
            max_bid: 0,
            state: AuctionState { highest_bid: None, closed: false },
        }
    }
}

impl AuctionBiddingState {
    pub open spec fn spec_handle_auction_house_event(self, event: auction_house::EventDetails) -> Self {
        AuctionBiddingState { max_bid: self.max_bid, state: self.state.spec_handle_auction_event(event) }
    }

    pub fn handle_auction_house_event(self, event: auction_house::EventDetails) -> (r: Self)
        ensures
            r == self.spec_handle_auction_house_event(event),
    {
        AuctionBiddingState { max_bid: self.max_bid, state: self.state.handle_auction_event(event) }
    }

    pub open spec fn spec_handle_new_max_bid(self, max_bid: Amount) -> Self {
        AuctionBiddingState { max_bid, ..self }
    }

    pub fn handle_new_max_bid(self, max_bid: Amount) -> (r: Self)
        ensures
            r == self.spec_handle_new_max_bid(max_bid),
    {
        AuctionBiddingState { max_bid, ..self }
    }
}

/// A store for the current state of each auction we participate in.
/// Reads and writes must occur inside the transaction supplied by the
/// driver, so that state mutation commits or rolls back together with the
/// cursor and event writes it is paired with.
pub trait BiddingStateStore: Sized {
    /// The per-item states held.
    spec fn states(&self) -> Map<Seq<char>, AuctionBiddingState>;

    fn load_tr(&self, transaction: &mut InMemoryTransaction, item_id: &ItemId) -> (r: Option<
        AuctionBiddingState,
    >)
        ensures
            r == if self.states().contains_key(item_id@) {
                Some(self.states()[item_id@])
            } else {
                None::<AuctionBiddingState>
            },
    ;

    fn store_tr(
        &mut self,
        transaction: &mut InMemoryTransaction,
        item_id: &ItemId,
        state: AuctionBiddingState,
    )
        ensures
            final(self).states() == old(self).states().insert(item_id@, state),
    ;

    /// Like `load_tr`, in a one-operation transaction of its own.
    fn load(&self, conn: &mut InMemoryConnection, item_id: &ItemId) -> (r: Option<
        AuctionBiddingState,
    >)
        ensures
            r == if self.states().contains_key(item_id@) {
                Some(self.states()[item_id@])
            } else {
                None::<AuctionBiddingState>
            },
    {
        let mut transaction = conn.start_transaction();
        self.load_tr(&mut transaction, item_id)
    }

    /// Like `store_tr`, in a one-operation transaction of its own.
    fn store(&mut self, conn: &mut InMemoryConnection, item_id: &ItemId, state: AuctionBiddingState)
        ensures
            final(self).states() == old(self).states().insert(item_id@, state),
    {
        let mut transaction = conn.start_transaction();
        self.store_tr(&mut transaction, item_id, state)
    }
}

/// The in-memory bidding state store.
pub struct InMemoryBiddingStateStore {
    store: KeyValueStore<AuctionBiddingState>,
}

impl InMemoryBiddingStateStore {
    pub fn new() -> (r: Self)
        ensures
            r.states() == Map::<Seq<char>, AuctionBiddingState>::empty(),
    {
        InMemoryBiddingStateStore { store: KeyValueStore::new() }
    }
}

impl BiddingStateStore for InMemoryBiddingStateStore {
    closed spec fn states(&self) -> Map<Seq<char>, AuctionBiddingState> {
        self.store@
    }

    fn load_tr(&self, _transaction: &mut InMemoryTransaction, item_id: &ItemId) -> (r: Option<
        AuctionBiddingState,
    >) {
        self.store.get(item_id)
    }

    fn store_tr(
        &mut self,
        _transaction: &mut InMemoryTransaction,
        item_id: &ItemId,
        state: AuctionBiddingState,
    ) {
        self.store.set(item_id.clone(), state)
    }
}

/// The `ServiceId` under which the bidding engine tracks its own progress.
pub const BIDDING_ENGINE_SERVICE_ID: &'static str = "bidding-engine";

/// React to an auction-house event: an unknown item yields exactly one
/// `UnknownAuction` error and no state; otherwise the transition is
/// applied, and only when it changed the state is the new state persisted
/// and, when the engine decides to bid, exactly one `Bid` emitted.
pub open spec fn spec_handle_auction_house_event(
    item_id: ItemId,
    old_state: Option<AuctionBiddingState>,
    event: auction_house::EventDetails,
) -> (Option<AuctionBiddingState>, Seq<Event>) {
    match old_state {
        Some(auction_state) => {
            let new_state = auction_state.spec_handle_auction_house_event(event);
            if new_state != auction_state {
                (
                    Some(new_state),
                    match new_state.state.spec_get_next_bid(new_state.max_bid) {
                        Some(our_bid) => seq![
                            Event::Bid(ItemBid { item: item_id, price: our_bid }),
                        ],
                        None => Seq::empty(),
                    },
                )
            } else {
                (None, Seq::empty())
            }
        },
        None => (None, seq![Event::AuctionError(AuctionError::UnknownAuction(item_id))]),
    }
}

/// React to the user setting a new maximum bid: the state (fresh for an
/// unknown item) takes the new maximum; it is persisted, and a bid
/// possibly emitted, only when it changed and we are not already the
/// highest bidder.
pub open spec fn spec_handle_max_bid_event(
    item_id: ItemId,
    old_state: Option<AuctionBiddingState>,
    price: Amount,
) -> (Option<AuctionBiddingState>, Seq<Event>) {
    let auction_state = match old_state {
        Some(s) => s,
        None => AuctionBiddingState {
            max_bid: 0,
            state: AuctionState { highest_bid: None, closed: false },
        },
    };
    let new_state = auction_state.spec_handle_new_max_bid(price);
    let not_winning = match new_state.state.highest_bid {
        Some(bid) => bid.bidder != Bidder::Sniper,
        None => true,
    };
    if new_state != auction_state && not_winning {
        (
            Some(new_state),
            match new_state.state.spec_get_next_bid(new_state.max_bid) {
                Some(our_bid) => seq![Event::Bid(ItemBid { item: item_id, price: our_bid })],
                None => Seq::empty(),
            },
        )
    } else {
        (None, Seq::empty())
    }
}

/// One full engine step over the held states: dispatch the log event to
/// the matching handler, persist the new state if there is one, and name
/// the events emitted. Events the engine itself emitted are ignored.
pub open spec fn spec_handle_event(
    states: Map<Seq<char>, AuctionBiddingState>,
    event: event_log::EventDetails,
) -> (Map<Seq<char>, AuctionBiddingState>, Seq<Event>) {
    match event {
        event_log::EventDetails::AuctionHouse(ah_event) => {
            let old_state = if states.contains_key(ah_event.item@) {
                Some(states[ah_event.item@])
            } else {
                None
            };
            let r = spec_handle_auction_house_event(ah_event.item, old_state, ah_event.event);
            (
                match r.0 {
                    Some(s) => states.insert(ah_event.item@, s),
                    None => states,
                },
                r.1,
            )
        },
        event_log::EventDetails::Ui(ui_event) => match ui_event {
            ui::Event::MaxBidSet(item_bid) => {
                let old_state = if states.contains_key(item_bid.item@) {
                    Some(states[item_bid.item@])
                } else {
                    None
                };
                let r = spec_handle_max_bid_event(item_bid.item, old_state, item_bid.price);
                (
                    match r.0 {
                        Some(s) => states.insert(item_bid.item@, s),
                        None => states,
                    },
                    r.1,
                )
            },
        },
        event_log::EventDetails::BiddingEngine(_) => (states, Seq::empty()),
    }
}

/// The bidding engine service: feeds log events through the pure transition
/// functions against its bidding state store, and writes the events it emits
/// back to the log.
pub struct BiddingEngine<S> {
    bidding_state_store: S,
}

impl<S: BiddingStateStore> BiddingEngine<S> {
    /// The per-item states held by the engine's bidding state store.
    pub closed spec fn states(&self) -> Map<Seq<char>, AuctionBiddingState> {
        self.bidding_state_store.states()
    }

    pub fn new(bidding_state_store: S) -> (r: Self)
        ensures
            r.states() == bidding_state_store.states(),
    {
        BiddingEngine { bidding_state_store }
    }

    pub fn handle_auction_house_event(
        item_id: ItemId,
        old_state: Option<AuctionBiddingState>,
        event: auction_house::EventDetails,
    ) -> (r: (Option<AuctionBiddingState>, Vec<Event>))
        ensures
            r.0 == spec_handle_auction_house_event(item_id, old_state, event).0,
            r.1@ == spec_handle_auction_house_event(item_id, old_state, event).1,
    {
        let mut events: Vec<Event> = Vec::new();
        match old_state {
            Some(auction_state) => {
                let new_state = auction_state.handle_auction_house_event(event);
                if new_state != auction_state {
                    match new_state.state.get_next_bid(new_state.max_bid) {
                        Some(our_bid) => {
                            events.push(Event::Bid(ItemBid { item: item_id, price: our_bid }));
                            proof {
                                assert(events@ =~= spec_handle_auction_house_event(
                                    item_id,
                                    old_state,
                                    event,
                                ).1);
                            }
                        },
                        None => {},
                    }
                    (Some(new_state), events)
                } else {
                    (None, events)
                }
            },
            None => {
                events.push(Event::AuctionError(AuctionError::UnknownAuction(item_id)));
                proof {
                    assert(events@ =~= spec_handle_auction_house_event(
                        item_id,
                        old_state,
                        event,
                    ).1);
                }
                (None, events)
            },
        }
    }

    pub fn handle_max_bid_event(
        item_id: ItemId,
        old_state: Option<AuctionBiddingState>,
        price: Amount,
    ) -> (r: (Option<AuctionBiddingState>, Vec<Event>))
        ensures
            r.0 == spec_handle_max_bid_event(item_id, old_state, price).0,
            r.1@ == spec_handle_max_bid_event(item_id, old_state, price).1,
    {
        let auction_state = match old_state {
            Some(s) => s,
            None => AuctionBiddingState::default(),
        };

        let new_state = auction_state.handle_new_max_bid(price);

        let not_winning = match new_state.state.highest_bid {
            Some(bid) => !matches!(bid.bidder, Bidder::Sniper),
            None => true,
        };

        let mut events: Vec<Event> = Vec::new();
        if new_state != auction_state && not_winning {
            match new_state.state.get_next_bid(new_state.max_bid) {
                Some(our_bid) => {
                    events.push(Event::Bid(ItemBid { item: item_id, price: our_bid }));
                    proof {
                        assert(events@ =~= spec_handle_max_bid_event(
                            item_id,
                            old_state,
                            price,
                        ).1);
                    }
                },
                None => {},
            }
            (Some(new_state), events)
        } else {
            (None, events)
        }
    }

    /// Persist the outcome of one handled event: store the new state when
    /// there is one, and append every emitted event to the log, inside the
    /// same transaction.
    fn persist_outcome(
        &mut self,
        transaction: &mut InMemoryTransaction,
        event_writer: &mut InMemoryEventLog,
        item_id: &ItemId,
        new_state: Option<AuctionBiddingState>,
        events: Vec<Event>,
    )
        requires
            old(event_writer)@.len() + events@.len() <= u64::MAX,
        ensures
            final(self).states() == match new_state {
                Some(s) => old(self).states().insert(item_id@, s),
                None => old(self).states(),
            },
            final(event_writer)@.len() == old(event_writer)@.len() + events@.len(),
            forall|i: int|
                0 <= i < old(event_writer)@.len() ==> final(event_writer)@[i] == old(
                    event_writer,
                )@[i],
            forall|i: int|
                old(event_writer)@.len() <= i < final(event_writer)@.len() ==> {
                    &&& (#[trigger] final(event_writer)@[i]).details
                        == event_log::EventDetails::BiddingEngine(
                        events@[i - old(event_writer)@.len()],
                    )
                    &&& final(event_writer)@[i].offset.0 == i + 1
                },
    {
        match new_state {
            Some(state) => self.bidding_state_store.store_tr(transaction, item_id, state),
            None => {},
        }

        let n = events.len();
        let mut wrapped: Vec<event_log::EventDetails> = Vec::new();
        let mut i: usize = 0;
        while i < n
            invariant
                n == events@.len(),
                0 <= i <= n,
                wrapped@.len() == i,
                forall|j: int|
                    0 <= j < i ==> wrapped@[j] == event_log::EventDetails::BiddingEngine(
                        events@[j],
                    ),
            decreases n - i,
        {
            wrapped.push(event_log::EventDetails::BiddingEngine(events[i].clone()));
            i += 1;
        }
        event_writer.write_tr(transaction, wrapped);
    }

    /// Handle one event read from the log: load the item's state, run the
    /// pure transition, and persist state change, emitted events — via the
    /// supplied transaction — as one unit.
    pub fn handle_event(
        &mut self,
        transaction: &mut InMemoryTransaction,
        event_writer: &mut InMemoryEventLog,
        event: event_log::EventDetails,
    )
        requires
            old(event_writer)@.len() + 1 <= u64::MAX,
        ensures
            ({
                let r = spec_handle_event(old(self).states(), event);
                &&& final(self).states() == r.0
                &&& final(event_writer)@.len() == old(event_writer)@.len() + r.1.len()
                &&& (forall|i: int|
                    0 <= i < old(event_writer)@.len() ==> final(event_writer)@[i] == old(
                        event_writer,
                    )@[i])
                &&& (forall|i: int|
                    old(event_writer)@.len() <= i < final(event_writer)@.len() ==> ((
                    #[trigger] final(event_writer)@[i]).details
                        == event_log::EventDetails::BiddingEngine(
                        r.1[i - old(event_writer)@.len()],
                    ) && final(event_writer)@[i].offset.0 == i + 1))
            }),
    {
        match event {
            event_log::EventDetails::AuctionHouse(ah_event) => {
                let item_id = ah_event.item.clone();
                let old_state = self.bidding_state_store.load_tr(transaction, &item_id);
                let (new_state, events) = Self::handle_auction_house_event(
                    ah_event.item,
                    old_state,
                    ah_event.event,
                );
                self.persist_outcome(transaction, event_writer, &item_id, new_state, events);
            },
            event_log::EventDetails::Ui(ui_event) => {
                match ui_event {
                    ui::Event::MaxBidSet(item_bid) => {
                        let item_id = item_bid.item.clone();
                        let old_state = self.bidding_state_store.load_tr(transaction, &item_id);
                        let (new_state, events) = Self::handle_max_bid_event(
                            item_bid.item,
                            old_state,
                            item_bid.price,
                        );
                        self.persist_outcome(
                            transaction,
                            event_writer,
                            &item_id,
                            new_state,
                            events,
                        );
                    },
                }
            },
            event_log::EventDetails::BiddingEngine(_) => {},
        }
    }

    /// The `ServiceId` under which this engine commits its progress.
    pub fn get_log_progress_id(&self) -> (r: ServiceId)
        ensures
            r@ == BIDDING_ENGINE_SERVICE_ID@,
    {
        String::from_str(BIDDING_ENGINE_SERVICE_ID)
    }
}

/// The auction state after observing a sequence of bids, in arrival order.
pub open spec fn spec_fold_bids(state: AuctionState, bids: Seq<BidDetails>) -> AuctionState
    decreases bids.len(),
{
    if bids.len() == 0 {
        state
    } else {
        spec_fold_bids(state, bids.drop_last()).spec_handle_auction_event(
            auction_house::EventDetails::Bid(bids.last()),
        )
    }
}

/// The auction state after processing a sequence of auction-house events,
/// in arrival order.
pub open spec fn spec_fold_auction_events(
    state: AuctionState,
    events: Seq<auction_house::EventDetails>,
) -> AuctionState
    decreases events.len(),
{
    if events.len() == 0 {
        state
    } else {
        spec_fold_auction_events(state, events.drop_last()).spec_handle_auction_event(
            events.last(),
        )
    }
}

/// Law: on an open auction, any sequence of bids leaves the auction open and
/// improves the highest bid monotonically — a lower-or-equal bid never
/// replaces a higher one — and the stored highest bid ends at least as high
/// as every observed bid, being either the initial highest bid or one of the
/// observed bids.
pub proof fn lemma_open_auction_bids_monotone(state: AuctionState, bids: Seq<BidDetails>)
    requires
        !state.closed,
    ensures
        !spec_fold_bids(state, bids).closed,
        state.highest_bid is Some ==> spec_fold_bids(state, bids).highest_bid is Some
            && spec_fold_bids(state, bids).highest_bid->0.price >= state.highest_bid->0.price,
        forall|i: int|
            0 <= i < bids.len() ==> spec_fold_bids(state, bids).highest_bid is Some
                && spec_fold_bids(state, bids).highest_bid->0.price >= bids[i].price,
        spec_fold_bids(state, bids).highest_bid == state.highest_bid || exists|i: int|
            0 <= i < bids.len() && spec_fold_bids(state, bids).highest_bid == Some(bids[i]),
    decreases bids.len(),
{
    if bids.len() > 0 {
        let prefix = bids.drop_last();
        lemma_open_auction_bids_monotone(state, prefix);
        assert(forall|i: int| 0 <= i < prefix.len() ==> prefix[i] == bids[i]);
        let g = spec_fold_bids(state, prefix);
        let f = spec_fold_bids(state, bids);
        if g.highest_bid == state.highest_bid {
        } else {
            let i = choose|i: int| 0 <= i < prefix.len() && g.highest_bid == Some(prefix[i]);
            if f.highest_bid == g.highest_bid {
                assert(f.highest_bid == Some(bids[i]));
            } else {
                assert(f.highest_bid == Some(bids[bids.len() - 1]));
            }
        }
    }
}

/// Law: a lower-or-equal bid never replaces the current highest bid.
pub proof fn lemma_no_replacement_by_lower_bid(state: AuctionState, bid: BidDetails)
    requires
        state.highest_bid matches Some(highest) && bid.price <= highest.price,
    ensures
        state.spec_handle_auction_event(auction_house::EventDetails::Bid(bid)) == state,
{
}

/// Law: once an auction is closed, no later auction-house event changes its
/// state at all, and no maximum price yields a next bid.
pub proof fn lemma_closed_auction_is_final(
    state: AuctionState,
    events: Seq<auction_house::EventDetails>,
    max_price: Amount,
)
    requires
        state.closed,
    ensures
        spec_fold_auction_events(state, events) == state,
        state.spec_get_next_bid(max_price) is None,
    decreases events.len(),
{
    if events.len() > 0 {
        lemma_closed_auction_is_final(state, events.drop_last(), max_price);
    }
}

/// Law: processing the same auction-house event a second time against the
/// state the first processing stored is a no-op — nothing is persisted and
/// nothing is emitted — so at-least-once redelivery is harmless.
pub proof fn lemma_redelivery_is_noop(
    item_id: ItemId,
    state: AuctionBiddingState,
    event: auction_house::EventDetails,
)
    ensures
        ({
            let first = spec_handle_auction_house_event(item_id, Some(state), event);
            let stored = match first.0 {
                Some(s) => s,
                None => state,
            };
            let second = spec_handle_auction_house_event(item_id, Some(stored), event);
            second.0 is None && second.1.len() == 0
        }),
{
    assert(state.spec_handle_auction_house_event(event).spec_handle_auction_house_event(event)
        == state.spec_handle_auction_house_event(event));
}

/// Law: while we are already the highest bidder, a new maximum bid is never
/// persisted and never makes the engine place a bid.
pub proof fn lemma_winning_bidder_never_rebids(
    item_id: ItemId,
    state: AuctionBiddingState,
    price: Amount,
)
    requires
        state.state.highest_bid matches Some(bid) && bid.bidder is Sniper,
    ensures
        ({
            let r = spec_handle_max_bid_event(item_id, Some(state), price);
            r.0 is None && r.1.len() == 0
        }),
{
}

} // verus!
