//! Core of an input-event capture service: a boundary adapter that turns raw
//! capture records into validated domain events, a motion aggregator that
//! reduces bursts of pointer samples to one summary record, a migration
//! engine that brings the persistent store to the correct schema version,
//! and a persistence layer that files each event under its process.
pub mod adapter;
pub mod aggregate;
pub mod codec;
pub mod errors;
pub mod event;
pub mod migrations;
pub mod store;
