//! Scheduler and bookkeeping core for two recurring weekly challenge tracks.
//!
//! Each track cycles through prompt, submission, voting and winner stages.
//! The library holds the verified logic: the per-track prompt queue with its
//! ordering guarantees, the forecast of when a queued prompt will run, the
//! period state machine that drives week rollovers, the stale-submission
//! sweep, and the vote ledger.  Chat, rendering and durable storage are
//! collaborators that live outside the library and exchange plain values
//! with it.

pub mod clock;
pub mod forecast;
pub mod queue;
pub mod scheduling;
pub mod store;
pub mod submissions;
pub mod types;
pub mod votes;
