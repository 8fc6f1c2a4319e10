//! An in-memory store for ephemeral collaborative rooms.
//!
//! A room is a membership set together with an append-only log of
//! membership events. The length of the log is the room's version; a
//! caller that knows a version can ask for the events recorded past it,
//! and a long-poll protocol lets a caller wait, over a bounded number of
//! polling rounds, until such events exist.

use vstd::prelude::*;

pub mod api;
pub mod error;
pub mod room;
pub mod service;
pub mod session;
pub mod store;
pub mod subscribe;

mod clock;
mod ids;

verus! {

/// The number of polling rounds a subscription performs before giving up.
pub const SUBSCRIBE_ATTEMPTS: u32 = 10;

/// How long a subscriber waits between two polling rounds, in milliseconds.
pub const POLL_INTERVAL_MILLIS: u64 = 1000;

} // verus!
