//! Core engine for locating live sports broadcast feeds and resolving each
//! feed into a playable HLS URL at a caller-chosen video quality.
//!
//! The library owns the entity model for a day's games and their broadcast
//! feeds, the per-feed resolution state machine (provider redirect URL ->
//! master manifest -> quality-specific variant URL), the feed-default
//! selection policy, and the deterministic quality negotiation algorithm.
//! Network transport, schedule fetching, and all file or process handling are
//! left to the surrounding application, which hands the engine plain values
//! (response bodies, schedules, team rosters) and gets plain values back.

pub mod errors;
pub mod game;
pub mod model;
pub mod negotiate;
pub mod schedule;
pub mod stream;
pub mod text;
pub mod types;
