//! Rule engine for blacklisting abusive web actors.
//!
//! Per-actor request counters are evaluated against a fixed set of abuse
//! heuristics; every rule that fires records a blacklist verdict in a
//! key-value store model. The caller replays the recorded writes against
//! the real shared store.

pub mod counters;
pub mod engine;
pub mod profile;
pub mod rules;
pub mod store;
