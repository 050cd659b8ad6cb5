use std::path::Path;
use std::time::{Duration, UNIX_EPOCH};

use fuzzy::stats::{
    default_refresh_secs, extension_of, is_json_file, json_report_files, stat_to_submit,
    ExecutorConfig, FuzzStatConfig, LlvmCovCollector, StatCollectorEnum, STAT_CORPUS_LIMIT,
};
use fuzzy::time::Since;

#[test]
fn extension_agrees_with_std() {
    let names = [
        "a.json", "a.b.json", ".json", "..json", "json", "a.", ".", "..", "", "archive.tar.gz",
        ".hidden.txt", "no_dot", "x.JSON", "é.jsön",
    ];
    for name in names {
        let ours = extension_of(name);
        let std_ext = Path::new(name).extension().map(|e| e.to_str().unwrap().to_string());
        assert_eq!(ours, std_ext, "for {:?}", name);
    }
}

#[test]
fn json_files() {
    assert!(is_json_file("report.json"));
    assert!(!is_json_file(".json"));
    assert!(!is_json_file("report.json.tmp"));
    assert!(!is_json_file("report.JSON"));
}

#[test]
fn json_report_files_keeps_order() {
    let names: Vec<String> = ["b.json", "a.txt", ".json", "c.json", "d"]
        .iter()
        .map(|s| s.to_string())
        .collect();
    assert_eq!(json_report_files(&names), vec!["b.json".to_string(), "c.json".to_string()]);
    assert!(json_report_files(&vec![]).is_empty());
}

#[test]
fn only_collected_stats_are_submitted() {
    assert_eq!(stat_to_submit::<u32, String>(Ok(Some(4))), Some(4));
    assert_eq!(stat_to_submit::<u32, String>(Ok(None)), None);
    assert_eq!(stat_to_submit::<u32, String>(Err("boom".to_string())), None);
}

#[test]
fn refresh_interval_is_five_seconds() {
    assert_eq!(default_refresh_secs(), 5);
}

fn stat_config() -> FuzzStatConfig {
    FuzzStatConfig {
        collector: StatCollectorEnum::LCov,
        execution: ExecutorConfig {
            executable: "./target".to_string(),
            args: vec!["-runs=0".to_string()],
            cwd: "/tmp/run".to_string(),
        },
    }
}

#[test]
fn collector_downloads_a_few_new_entries() {
    let t = UNIX_EPOCH + Duration::from_secs(42);
    let c = LlvmCovCollector::with_last_sync(stat_config(), "libpng".to_string(), Some(2), t);
    let req = c.corpus_download();
    assert_eq!(req.label, "libpng");
    assert_eq!(req.worker_task_id, Some(2));
    assert_eq!(req.limit, Some(STAT_CORPUS_LIMIT));
    assert_eq!(STAT_CORPUS_LIMIT, 10);
    match req.since {
        Since::At(s) => assert_eq!(s, t),
        Since::Beginning => panic!("expected a mark"),
    }
    assert_eq!(c.refresh_secs(), 5);
    assert_eq!(c.execution_config().executable, "./target");
    assert_eq!(c.execution_config().args, vec!["-runs=0".to_string()]);
    assert_eq!(c.execution_config().cwd, "/tmp/run");
}

#[test]
fn collector_new_starts_now() {
    let c = LlvmCovCollector::new(stat_config(), "libpng".to_string(), None);
    let req = c.corpus_download();
    assert_eq!(req.worker_task_id, None);
    assert!(matches!(req.since, Since::At(_)));
}
