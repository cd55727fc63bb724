//! Shared shopping-list state kept in sync with live subscribers.
//!
//! The record store, the subscriber registry, the broadcast that follows each
//! mutation, the per-connection lifecycle and the startup load of a snapshot
//! are verified here; sockets, files, timers and JSON live with the caller.

pub mod shopping_list;
pub mod subscribers;
pub mod api;
pub mod connection;
pub mod state;
