use auction_sniper::auction::{BidDetails, Bidder, ItemBid};
use auction_sniper::auction_house;
use auction_sniper::bidding_engine::{
    BiddingEngine, Event, InMemoryBiddingStateStore, BIDDING_ENGINE_SERVICE_ID,
};
use auction_sniper::event_log::{EventDetails, InMemoryEventLog, Offset};
use auction_sniper::follower::process_available;
use auction_sniper::persistence::InMemoryConnection;
use auction_sniper::progress::{InMemoryProgressTracker, ProgressTracker};

fn max_bid_set(item: &str, price: u64) -> EventDetails {
    EventDetails::Ui(auction_sniper::ui::Event::MaxBidSet(ItemBid {
        item: item.to_string(),
        price,
    }))
}

fn auction_bid(item: &str, bidder: Bidder, price: u64) -> EventDetails {
    EventDetails::AuctionHouse(auction_house::Event {
        item: item.to_string(),
        event: auction_house::EventDetails::Bid(BidDetails { bidder, price }),
    })
}

fn auction_closed(item: &str) -> EventDetails {
    EventDetails::AuctionHouse(auction_house::Event {
        item: item.to_string(),
        event: auction_house::EventDetails::Closed,
    })
}

fn cursor(
    conn: &mut InMemoryConnection,
    progress: &InMemoryProgressTracker,
) -> Option<Offset> {
    progress.load(conn, &BIDDING_ENGINE_SERVICE_ID.to_string())
}

#[test]
fn bidding_engine_progresses_under_its_reserved_service_id() {
    let engine = BiddingEngine::new(InMemoryBiddingStateStore::new());
    assert_eq!(engine.get_log_progress_id(), "bidding-engine");
    assert_eq!(BIDDING_ENGINE_SERVICE_ID, "bidding-engine");
}

#[test]
fn follower_processes_batches_and_advances_cursor_monotonically() {
    let mut conn = InMemoryConnection::new();
    let mut engine = BiddingEngine::new(InMemoryBiddingStateStore::new());
    let mut progress = InMemoryProgressTracker::new();
    let mut log = InMemoryEventLog::new();

    let mut transaction = conn.start_transaction();
    log.write_tr(
        &mut transaction,
        vec![
            max_bid_set("A1", 100),
            auction_bid("A1", Bidder::Other, 0),
            auction_bid("A1", Bidder::Sniper, 1),
            auction_closed("A1"),
        ],
    );

    assert_eq!(cursor(&mut conn, &progress), None);

    // first batch: two events; the engine bids twice
    let n = process_available(&mut conn, &mut engine, &mut progress, &mut log, 2);
    assert_eq!(n, 2);
    assert_eq!(cursor(&mut conn, &progress), Some(Offset(2)));

    let emitted = log.read(Some(Offset(4)), 10);
    assert_eq!(emitted.len(), 2);
    assert_eq!(
        emitted[0].details,
        EventDetails::BiddingEngine(Event::Bid(ItemBid { item: "A1".to_string(), price: 0 }))
    );
    assert_eq!(
        emitted[1].details,
        EventDetails::BiddingEngine(Event::Bid(ItemBid { item: "A1".to_string(), price: 1 }))
    );

    // second batch: our winning bid and the close; nothing further is emitted,
    // and the cursor only moves forward
    let n = process_available(&mut conn, &mut engine, &mut progress, &mut log, 2);
    assert_eq!(n, 2);
    assert_eq!(cursor(&mut conn, &progress), Some(Offset(4)));
    assert_eq!(log.read(Some(Offset(6)), 10), vec![]);

    // third batch: the engine reads its own emitted events and ignores them,
    // still advancing the cursor past them
    let n = process_available(&mut conn, &mut engine, &mut progress, &mut log, 10);
    assert_eq!(n, 2);
    assert_eq!(cursor(&mut conn, &progress), Some(Offset(6)));

    // nothing left: the cursor does not move
    let n = process_available(&mut conn, &mut engine, &mut progress, &mut log, 10);
    assert_eq!(n, 0);
    assert_eq!(cursor(&mut conn, &progress), Some(Offset(6)));
}

#[test]
fn follower_emits_unknown_auction_error_for_unseen_item() {
    let mut conn = InMemoryConnection::new();
    let mut engine = BiddingEngine::new(InMemoryBiddingStateStore::new());
    let mut progress = InMemoryProgressTracker::new();
    let mut log = InMemoryEventLog::new();

    let mut transaction = conn.start_transaction();
    log.write_tr(&mut transaction, vec![auction_bid("A9", Bidder::Other, 5)]);

    let n = process_available(&mut conn, &mut engine, &mut progress, &mut log, 10);
    assert_eq!(n, 1);

    let emitted = log.read(Some(Offset(1)), 10);
    assert_eq!(emitted.len(), 1);
    assert_eq!(
        emitted[0].details,
        EventDetails::BiddingEngine(Event::AuctionError(
            auction_sniper::bidding_engine::AuctionError::UnknownAuction("A9".to_string())
        ))
    );
    assert_eq!(cursor(&mut conn, &progress), Some(Offset(1)));
}

#[test]
fn restart_resumes_from_last_committed_offset() {
    let mut conn = InMemoryConnection::new();
    let mut progress = InMemoryProgressTracker::new();
    let mut log = InMemoryEventLog::new();

    let mut transaction = conn.start_transaction();
    log.write_tr(
        &mut transaction,
        vec![max_bid_set("A1", 10), auction_bid("A1", Bidder::Other, 2)],
    );

    {
        let mut engine = BiddingEngine::new(InMemoryBiddingStateStore::new());
        let n = process_available(&mut conn, &mut engine, &mut progress, &mut log, 1);
        assert_eq!(n, 1);
    }
    // a fresh consumer loop picks up exactly after the committed cursor
    let before = cursor(&mut conn, &progress).expect("progress was committed");
    let mut engine = BiddingEngine::new(InMemoryBiddingStateStore::new());
    let n = process_available(&mut conn, &mut engine, &mut progress, &mut log, 10);
    assert!(n >= 1);
    let after = cursor(&mut conn, &progress).expect("progress stays committed");
    assert!(after >= before);
}
