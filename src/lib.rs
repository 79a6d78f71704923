//! Discovery of unused IPv4 link-local addresses by ARP probing.
//!
//! The library holds the logic of the prober: the wire codec of ARP frames,
//! the response cache and notification registry, the decisions of the ARP
//! client, the retrying probe driver, and the selector, batcher and finder
//! pipeline that feeds candidate addresses to it. Sockets, timers and tasks
//! are left to the caller, which hands the library plain values.
pub mod codec;
pub mod net;
pub mod cache;
pub mod registry;
pub mod selector;
pub mod batcher;
pub mod client;
pub mod probe;
pub mod finder;
pub mod handler;
pub mod args;
