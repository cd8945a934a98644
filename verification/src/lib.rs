//! Transactional core of an automated auction-bidding agent.
//!
//! An append-only event log feeds a pure bidding state machine through a
//! transactional log-follower driver; per-consumer progress cursors record
//! how far each consumer has read.

pub mod auction;
pub mod auction_house;
pub mod bidding_engine;
pub mod event_log;
pub mod follower;
pub mod persistence;
pub mod progress;
pub mod store;
pub mod ui;
