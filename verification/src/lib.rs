//! Reactions of a simulated chat crowd to the text that is added to named
//! buffers.
//!
//! A buffer store keeps the latest text of every buffer. Each update is
//! compared line by line with the text it replaces, and the last span that
//! was added becomes the fragment that a random half of the registered
//! agents is asked to react to. The reactions that come back are queued in
//! an aggregator and handed to a single consumer in the order in which they
//! were published.

pub mod agent;
pub mod chat;
pub mod diff;
pub mod store;
pub mod dispatch;
pub mod aggregator;
