//! A relayer keeps a local ledger consistent with a data-availability chain
//! that it does not control: it finds the heights that are not yet reflected
//! locally, applies the events published there and publishes the height up to
//! which the ledger is consistent.

pub mod apply;
pub mod channel;
pub mod config;
pub mod error;
pub mod laws;
pub mod memory;
pub mod message;
pub mod ports;
pub mod run;
pub mod service;
pub mod state;
pub mod synced;
pub mod syncing;
