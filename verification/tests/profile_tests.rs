use fuzzy::intervals::{
    MASTER_SCHEDULER_INTERVAL_SECS, WORKER_FUZZDRIVER_STAT_UPLOAD_INTERVAL_SECS,
    WORKER_HEARTBEAT_INTERVAL_SECS, WORKER_PROCESS_CHECK_INTERVAL_SECS,
    WORKER_TASK_REFRESH_INTERVAL_SECS,
};
use fuzzy::profile::{decode_profile, ProfileCommand, ProfileError};

#[test]
fn profile_subcommands() {
    assert_eq!(ProfileCommand::from_subcommand("executor"), Some(ProfileCommand::Executor));
    assert_eq!(ProfileCommand::from_subcommand("task"), Some(ProfileCommand::Task));
    assert_eq!(ProfileCommand::from_subcommand("tasks"), None);
    assert_eq!(ProfileCommand::from_subcommand(""), None);
}

#[test]
fn profile_text_is_decoded() {
    let text = "executor: native\nargs: [\"é\"]\n";
    assert_eq!(decode_profile(text.as_bytes().to_vec()), Ok(text.to_string()));
}

#[test]
fn non_utf8_profile_is_refused() {
    assert_eq!(decode_profile(vec![0x66, 0xff, 0x6f]), Err(ProfileError::NotUtf8));
}

#[test]
fn intervals() {
    assert_eq!(WORKER_HEARTBEAT_INTERVAL_SECS, 15);
    assert_eq!(WORKER_FUZZDRIVER_STAT_UPLOAD_INTERVAL_SECS, 5);
    assert_eq!(WORKER_TASK_REFRESH_INTERVAL_SECS, 15);
    assert_eq!(WORKER_PROCESS_CHECK_INTERVAL_SECS, 15);
    assert_eq!(MASTER_SCHEDULER_INTERVAL_SECS, 15);
}
