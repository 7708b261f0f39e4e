//! View model of an interactive browser for a remote key-value store.
//!
//! The crate holds the browsing state machine: the key list, the filter, the
//! selection, the cache of per-key details and the frame that a terminal
//! front end draws. Talking to the store and to the terminal is left to the
//! caller, which feeds events in and carries commands out.

pub mod text;
pub mod filter;
pub mod selection;
pub mod details;
pub mod fetch;
pub mod cache;
pub mod frame;
pub mod browser;
pub mod laws;
