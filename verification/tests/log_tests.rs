use auction_sniper::auction::{BidDetails, Bidder, ItemBid};
use auction_sniper::auction_house;
use auction_sniper::bidding_engine::{
    AuctionBiddingState, AuctionState, BiddingStateStore, InMemoryBiddingStateStore,
};
use auction_sniper::event_log::{EventDetails, InMemoryEventLog, Offset};
use auction_sniper::persistence::InMemoryConnection;
use auction_sniper::progress::{InMemoryProgressTracker, ProgressTracker};
use auction_sniper::ui;

fn ui_event(item: &str, price: u64) -> EventDetails {
    EventDetails::Ui(ui::Event::MaxBidSet(ItemBid { item: item.to_string(), price }))
}

fn auction_bid(item: &str, bidder: Bidder, price: u64) -> EventDetails {
    EventDetails::AuctionHouse(auction_house::Event {
        item: item.to_string(),
        event: auction_house::EventDetails::Bid(BidDetails { bidder, price }),
    })
}

#[test]
fn write_assigns_fresh_increasing_offsets() {
    let mut conn = InMemoryConnection::new();
    let mut log = InMemoryEventLog::new();
    let mut transaction = conn.start_transaction();

    log.write_tr(&mut transaction, vec![ui_event("A1", 10), ui_event("A2", 20)]);
    log.write_tr(&mut transaction, vec![auction_bid("A1", Bidder::Other, 3)]);

    let all = log.read(None, 10);
    assert_eq!(all.len(), 3);
    assert_eq!(all[0].offset, Offset(1));
    assert_eq!(all[1].offset, Offset(2));
    assert_eq!(all[2].offset, Offset(3));
    assert_eq!(all[0].details, ui_event("A1", 10));
    assert_eq!(all[1].details, ui_event("A2", 20));
    assert_eq!(all[2].details, auction_bid("A1", Bidder::Other, 3));
}

#[test]
fn read_honours_cursor_and_count() {
    let mut conn = InMemoryConnection::new();
    let mut log = InMemoryEventLog::new();
    let mut transaction = conn.start_transaction();
    log.write_tr(
        &mut transaction,
        vec![ui_event("A1", 1), ui_event("A2", 2), ui_event("A3", 3), ui_event("A4", 4)],
    );

    let first_two = log.read(None, 2);
    assert_eq!(first_two.len(), 2);
    assert_eq!(first_two[0].offset, Offset(1));
    assert_eq!(first_two[1].offset, Offset(2));

    let after_two = log.read(Some(Offset(2)), 10);
    assert_eq!(after_two.len(), 2);
    assert_eq!(after_two[0].offset, Offset(3));
    assert_eq!(after_two[0].details, ui_event("A3", 3));

    // nothing new: an empty batch, not an error
    assert_eq!(log.read(Some(Offset(4)), 10), vec![]);
    // a cursor past the end reads nothing
    assert_eq!(log.read(Some(Offset(100)), 10), vec![]);
    // a zero-sized batch reads nothing
    assert_eq!(log.read(None, 0), vec![]);
}

#[test]
fn progress_tracker_keeps_one_cursor_per_service() {
    let mut conn = InMemoryConnection::new();
    let mut tracker = InMemoryProgressTracker::new();
    let mut transaction = conn.start_transaction();

    let alpha = "alpha".to_string();
    let beta = "beta".to_string();

    assert_eq!(tracker.load(&mut conn, &alpha), None);

    tracker.store_tr(&mut transaction, &alpha, Offset(4));
    tracker.store_tr(&mut transaction, &beta, Offset(9));
    assert_eq!(tracker.load(&mut conn, &alpha), Some(Offset(4)));
    assert_eq!(tracker.load_tr(&mut transaction, &beta), Some(Offset(9)));

    // overwriting is unconditional
    tracker.store_tr(&mut transaction, &alpha, Offset(6));
    assert_eq!(tracker.load(&mut conn, &alpha), Some(Offset(6)));
    assert_eq!(tracker.load(&mut conn, &beta), Some(Offset(9)));
}

#[test]
fn bidding_state_store_keeps_one_state_per_item() {
    let mut conn = InMemoryConnection::new();
    let mut store = InMemoryBiddingStateStore::new();
    let mut transaction = conn.start_transaction();

    let a1 = "A1".to_string();
    let a2 = "A2".to_string();

    assert_eq!(store.load_tr(&mut transaction, &a1), None);

    let state_a1 = AuctionBiddingState {
        max_bid: 100,
        state: AuctionState { highest_bid: None, closed: false },
    };
    let state_a2 = AuctionBiddingState {
        max_bid: 7,
        state: AuctionState {
            highest_bid: Some(BidDetails { bidder: Bidder::Other, price: 3 }),
            closed: true,
        },
    };
    store.store_tr(&mut transaction, &a1, state_a1);
    store.store_tr(&mut transaction, &a2, state_a2);
    assert_eq!(store.load_tr(&mut transaction, &a1), Some(state_a1));
    assert_eq!(store.load(&mut conn, &a2), Some(state_a2));

    let replaced = AuctionBiddingState { max_bid: 250, ..state_a1 };
    store.store(&mut conn, &a1, replaced);
    assert_eq!(store.load(&mut conn, &a1), Some(replaced));
    assert_eq!(store.load(&mut conn, &a2), Some(state_a2));
}
