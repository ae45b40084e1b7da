//! A probe into a payment-channel network's gossip.
//!
//! The library keeps the graph of nodes and channels that a peer's gossip
//! describes, and answers what is known of one node. It holds
//!
//! - the codec of short channel ids ([`scid`]);
//! - the checks that authenticate gossip ([`crypto`]) and the plain form of the
//!   messages that carry it ([`message`]);
//! - the decisions on an announcement ([`verdict`]), the graph that they guard
//!   ([`graph`], over the [`store`]) and what holds of it ([`laws`]);
//! - the dispatcher that feeds the graph from decrypted frames ([`dispatch`]);
//! - the decisions of the loop that polls the graph ([`session`]) and the lines
//!   that it prints in the end ([`report`]).
//!
//! The transport itself, with its handshake and its framing, is the caller's.
pub mod crypto;
pub mod dispatch;
pub mod graph;
pub mod laws;
pub mod message;
pub mod report;
pub mod scid;
pub mod session;
pub mod store;
pub mod verdict;
mod waiting;
