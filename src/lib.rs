//! Event voting and lifecycle logic of the events service: the event record,
//! voter deduplication, vote tallies, expiration and delete authorization.

pub mod doc_id;
pub mod event;
pub mod envelope;
pub mod lifecycle;
pub mod store;
pub mod laws;
