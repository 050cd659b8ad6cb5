use vstd::prelude::*;

verus! {

/// Seconds between most periodic jobs.
pub const COMMON_INTERVAL_SECS: u64 = 15;

// Worker related
pub const WORKER_HEARTBEAT_INTERVAL_SECS: u64 = COMMON_INTERVAL_SECS;

pub const WORKER_FUZZDRIVER_STAT_UPLOAD_INTERVAL_SECS: u64 = 5;

pub const WORKER_TASK_REFRESH_INTERVAL_SECS: u64 = COMMON_INTERVAL_SECS;

pub const WORKER_PROCESS_CHECK_INTERVAL_SECS: u64 = COMMON_INTERVAL_SECS;

// Master related
pub const MASTER_SCHEDULER_INTERVAL_SECS: u64 = COMMON_INTERVAL_SECS;

} // verus!
