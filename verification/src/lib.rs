//! Verified core of an HTTP bridge for session media players.
//!
//! The remote players speak a poll-only property protocol; this crate holds
//! the logic that turns those polled reads into ordered event streams: the
//! metadata normalizer, the seek-unit calibrator, the position and state-diff
//! poller state machines, the bounded event buffer and the event multiplexer,
//! together with the text-level parsing and formatting those components need.
//! The I/O shell (HTTP routes, remote property calls, the volume subprocess)
//! lives outside this crate and drives these state machines.

pub mod text;
pub mod error;
pub mod metadata;
pub mod json;
pub mod event;
pub mod position;
pub mod diff;
pub mod seek;
pub mod routes;
pub mod volume;
