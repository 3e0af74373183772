//! Turns a live chat event stream into per-session aggregates kept in a
//! backing store: a message log, a set of participants and a watch streak
//! score per user.
//!
//! The library decides; the caller talks to the chat platform and to the
//! store. Every decision is a verified function from plain values to plain
//! values, and `store` holds the mathematical model of the backing store
//! against which the aggregate laws are proved.

pub mod keys;
pub mod event;
pub mod live;
pub mod store;
pub mod updater;
pub mod laws;
pub mod ingest;
