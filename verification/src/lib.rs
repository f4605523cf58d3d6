//! Adaptive rate-limited client core for a quick-note capture tool.
//!
//! The library holds the verified heart of the application: per-credential
//! rate-limit bookkeeping with exponential backoff, a single-slot TTL cache
//! for page listings, a connection-pool registry, timestamped note
//! formatting, response classification, and the error taxonomy with its
//! user-facing messages and recovery actions.
//!
//! All time-dependent logic takes the current time (milliseconds) and the
//! backoff jitter as explicit arguments, so every decision is verified for
//! every possible clock and jitter value; thin wrappers read the real clock
//! and entropy source.

pub mod cache;
pub mod clock;
pub mod config;
pub mod error;
pub mod notion;
pub mod pool;
pub mod rate_limit;
pub mod strutil;
