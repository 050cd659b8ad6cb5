//! Worker-side logic of the fuzzing orchestrator: corpus and crash
//! synchronisation decisions, statistics collection helpers, tracing
//! verbosity, profile handling and checksums.

pub mod corpus;
pub mod crash;
pub mod intervals;
pub mod pattern;
pub mod profile;
pub mod stats;
pub mod text;
pub mod time;
pub mod trace;
pub mod utils;
