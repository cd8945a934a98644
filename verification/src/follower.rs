//! The transactional log-follower driver: ties the bidding state store, the
//! event log and the progress tracker into one atomic unit per processed
//! event. For each event past the consumer's stored cursor it opens one
//! transaction, hands the event to the engine, and advances the cursor
//! inside that same transaction; a consumer that stops and restarts resumes
//! from the last committed offset.
//!
//! This is the stronger of two consumption modes. The other — a convenience
//! loop that runs a handler first and persists its progress afterwards, in a
//! transaction of its own — gives only at-least-once delivery without atomic
//! effects, and deliberately lives with the thread plumbing, not here.

use vstd::prelude::*;
use crate::bidding_engine::{
    spec_handle_event, BiddingEngine, BiddingStateStore, Event, BIDDING_ENGINE_SERVICE_ID,
};
use crate::event_log;
use crate::event_log::{EventRecord, InMemoryEventLog};
use crate::persistence::InMemoryConnection;
use crate::progress::{InMemoryProgressTracker, ProgressTracker};

verus! {

/// The states and emitted events after feeding a sequence of log events, in
/// order, through the engine's transition.
pub open spec fn spec_run_events(
    states: Map<Seq<char>, crate::bidding_engine::AuctionBiddingState>,
    events: Seq<event_log::EventDetails>,
) -> (Map<Seq<char>, crate::bidding_engine::AuctionBiddingState>, Seq<Event>)
    decreases events.len(),
{
    if events.len() == 0 {
        (states, Seq::empty())
    } else {
        let prior = spec_run_events(states, events.drop_last());
        let step = spec_handle_event(prior.0, events.last());
        (step.0, prior.1 + step.1)
    }
}

/// Read up to `max_count` events past the bidding engine's cursor and
/// process each one transactionally: the engine's states move by one
/// transition per event, everything the engine emits is appended to the log
/// behind the records that were read, and the cursor advances to the offset
/// of the last event processed — so it never decreases.
pub fn process_available<S: BiddingStateStore>(
    conn: &mut InMemoryConnection,
    engine: &mut BiddingEngine<S>,
    progress: &mut InMemoryProgressTracker,
    log: &mut InMemoryEventLog,
    max_count: usize,
) -> (n: usize)
    requires
        old(log)@.len() + max_count <= u64::MAX,
    ensures
        ({
            let sid = BIDDING_ENGINE_SERVICE_ID@;
            let after = if old(progress)@.contains_key(sid) {
                Some(old(progress)@[sid])
            } else {
                None
            };
            let start = old(log).spec_start(after);
            let end = if start + max_count <= old(log)@.len() {
                start + max_count
            } else {
                old(log)@.len() as int
            };
            let batch = old(log)@.subrange(start, end).map_values(|r: EventRecord| r.details);
            let run = spec_run_events(old(engine).states(), batch);
            &&& n == end - start
            &&& final(engine).states() == run.0
            &&& final(log)@.len() == old(log)@.len() + run.1.len()
            &&& (forall|i: int| 0 <= i < old(log)@.len() ==> final(log)@[i] == old(log)@[i])
            &&& (forall|i: int|
                old(log)@.len() <= i < final(log)@.len()
                    ==> ((#[trigger] final(log)@[i]).details
                        == event_log::EventDetails::BiddingEngine(run.1[i - old(log)@.len()])
                        && final(log)@[i].offset.0 == i + 1))
            &&& final(progress)@ == if n == 0 {
                old(progress)@
            } else {
                old(progress)@.insert(sid, old(log)@[end - 1].offset)
            }
            &&& (old(progress)@.contains_key(sid) ==> final(progress)@.contains_key(sid) && old(
                progress,
            )@[sid].0 <= final(progress)@[sid].0)
        }),
{
    let service_id = engine.get_log_progress_id();
    let cursor = progress.load(conn, &service_id);
    let batch = log.read(cursor, max_count);

    let ghost sid = BIDDING_ENGINE_SERVICE_ID@;
    let ghost start = old(log).spec_start(cursor);
    let ghost states0 = old(engine).states();
    let ghost log0 = old(log)@;
    let ghost progress0 = old(progress)@;
    let ghost batch_details = batch@.map_values(|r: EventRecord| r.details);

    let n = batch.len();
    let mut i: usize = 0;
    while i < n
        invariant
            0 <= i <= n,
            n == batch@.len(),
            n <= max_count,
            log0.len() + max_count <= u64::MAX,
            service_id@ == sid,
            batch_details == batch@.map_values(|r: EventRecord| r.details),
            forall|j: int| 0 <= j < n ==> (#[trigger] batch@[j]).offset.0 == start + j + 1,
            0 <= start <= log0.len(),
            engine.states() == spec_run_events(states0, batch_details.take(i as int)).0,
            spec_run_events(states0, batch_details.take(i as int)).1.len() <= i,
            log@.len() == log0.len() + spec_run_events(states0, batch_details.take(i as int)).1.len(),
            forall|k: int| 0 <= k < log0.len() ==> log@[k] == log0[k],
            forall|k: int|
                log0.len() <= k < log@.len() ==> ((#[trigger] log@[k]).details
                    == event_log::EventDetails::BiddingEngine(
                    spec_run_events(states0, batch_details.take(i as int)).1[k - log0.len()],
                ) && log@[k].offset.0 == k + 1),
            progress@ == if i == 0 {
                progress0
            } else {
                progress0.insert(sid, batch@[i - 1].offset)
            },
        decreases n - i,
    {
        let details = batch[i].details.clone();
        let offset = batch[i].offset;
        let ghost prior = spec_run_events(states0, batch_details.take(i as int));

        let mut transaction = conn.start_transaction();
        engine.handle_event(&mut transaction, log, details);
        progress.store_tr(&mut transaction, &service_id, offset);

        proof {
            assert(batch_details.take(i as int + 1).drop_last() =~= batch_details.take(i as int));
            assert(batch_details.take(i as int + 1).last() == batch_details[i as int]);
            let run = spec_run_events(states0, batch_details.take(i as int + 1));
            let step = spec_handle_event(prior.0, batch_details[i as int]);
            assert(run.1 == prior.1 + step.1);
            assert(log@.len() == log0.len() + run.1.len());
            assert(forall|k: int|
                log0.len() <= k < log@.len() ==> (#[trigger] log@[k]).details
                    == event_log::EventDetails::BiddingEngine(run.1[k - log0.len()])) by {
                assert(forall|k: int|
                    0 <= k < prior.1.len() ==> run.1[k] == prior.1[k]);
                assert(forall|k: int|
                    prior.1.len() <= k < run.1.len() ==> run.1[k] == step.1[k - prior.1.len()]);
            }
            if i > 0 {
                assert(progress0.insert(sid, batch@[i - 1].offset).insert(sid, offset)
                    =~= progress0.insert(sid, offset));
            }
        }
        i += 1;
    }
    proof {
        assert(batch_details.take(n as int) =~= batch_details);
    }
    n
}

} // verus!
