//! Core logic of a Mediathek/live-TV client: a debounced, generation-gated
//! search controller for the MediathekViewWeb API, a single-flight cache for
//! the shared live-channel catalog, and the per-channel "now playing"
//! assembly, all specified and verified with Verus.
//!
//! Network I/O itself stays outside this crate: callers perform the HTTP
//! requests that the controller plans and feed the outcomes back in as plain
//! values.

pub mod cache;
pub mod catalog;
pub mod controller;
pub mod error;
pub mod launcher;
pub mod live;
pub mod query;
pub mod shows;
pub mod text;
pub mod zapp;
