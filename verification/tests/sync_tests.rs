use std::time::{Duration, SystemTime, UNIX_EPOCH};

use fuzzy::corpus::{corpus_file_pattern, CorpusConfig, CorpusSyncer, UploadAction, CORPUS_FILE_EXT};
use fuzzy::crash::{CrashConfig, CrashSyncer};
use fuzzy::time::Since;

fn corpus_config(upload: bool) -> CorpusConfig {
    CorpusConfig {
        label: "libpng".to_string(),
        path: "/tmp/corpus".to_string(),
        refresh_interval: 30,
        upload,
        upload_filter: ".*".to_string(),
    }
}

#[test]
fn pattern_for_extension() {
    assert_eq!(corpus_file_pattern("corpus"), ".*\\.corpus$");
    assert_eq!(corpus_file_pattern(CORPUS_FILE_EXT), format!(".*\\.{}$", CORPUS_FILE_EXT));
}

#[test]
fn corpus_syncer_new_is_ok() {
    let s = CorpusSyncer::new(corpus_config(true), Some(7)).unwrap();
    assert_eq!(s.path_text(), "/tmp/corpus");
}

#[test]
fn initial_download_asks_for_everything() {
    let s = CorpusSyncer::new(corpus_config(true), Some(7)).unwrap();
    let req = s.initial_download();
    assert_eq!(req.label, "libpng");
    assert_eq!(req.worker_task_id, Some(7));
    assert!(matches!(req.since, Since::Beginning));
    assert_eq!(req.limit, None);
}

#[test]
fn no_filter_when_upload_is_off() {
    let s = CorpusSyncer::new(corpus_config(false), None).unwrap();
    assert!(matches!(s.upload_filter(), Ok(None)));
}

#[test]
fn downloaded_entries_are_not_uploaded() {
    let s = CorpusSyncer::new(corpus_config(true), Some(3)).unwrap();
    let f = s.upload_filter().unwrap().unwrap();
    let name = format!("abc.{}", CORPUS_FILE_EXT);
    assert!(matches!(f.decide(&name), UploadAction::Skip));
    match f.decide("crash-1234") {
        UploadAction::Upload(r) => {
            assert_eq!(r.file, "crash-1234");
            assert_eq!(r.label, "libpng");
            assert_eq!(r.worker_task_id, Some(3));
        }
        UploadAction::Skip => panic!("expected an upload"),
    }
    // the extension must end the name
    assert!(matches!(f.decide(&format!("abc.{}.bak", CORPUS_FILE_EXT)), UploadAction::Upload(_)));
}

#[test]
fn invalid_extension_pattern_is_an_error() {
    let s = CorpusSyncer::new(corpus_config(true), None).unwrap();
    assert!(s.upload_filter_for("(").is_err());
}

#[test]
fn download_mark_moves_only_on_success() {
    let s = CorpusSyncer::new(corpus_config(true), Some(1)).unwrap();
    let t0 = UNIX_EPOCH + Duration::from_secs(1000);
    let t1 = UNIX_EPOCH + Duration::from_secs(2000);
    let t2 = UNIX_EPOCH + Duration::from_secs(3000);
    let mut d = s.download_sync_from(t0);
    assert_eq!(d.refresh_interval, 30);
    d.record_outcome_at(false, t1);
    assert_eq!(d.last_updated, t0);
    match d.next_request().since {
        Since::At(t) => assert_eq!(t, t0),
        Since::Beginning => panic!("expected a mark"),
    }
    d.record_outcome_at(true, t2);
    assert_eq!(d.last_updated, t2);
    let req = d.next_request();
    assert_eq!(req.label, "libpng");
    assert_eq!(req.worker_task_id, Some(1));
    match req.since {
        Since::At(t) => assert_eq!(t, t2),
        Since::Beginning => panic!("expected a mark"),
    }
}

#[test]
fn record_outcome_reads_the_clock_on_success() {
    let s = CorpusSyncer::new(corpus_config(true), None).unwrap();
    let mut d = s.download_sync_from(UNIX_EPOCH);
    d.record_outcome(false);
    assert_eq!(d.last_updated, UNIX_EPOCH);
    let before = SystemTime::now();
    d.record_outcome(true);
    assert!(d.last_updated >= before);
}

#[test]
fn crash_uploads_every_file() {
    let c = CrashSyncer::new(
        CrashConfig {
            label: "libpng".to_string(),
            path: "/tmp/crashes".to_string(),
            filter: "crash-.*".to_string(),
        },
        Some(9),
    )
    .unwrap();
    assert_eq!(c.path_text(), "/tmp/crashes");
    assert_eq!(c.filter_text(), "crash-.*");
    let r = c.upload_request("crash-1");
    assert_eq!(r.file, "crash-1");
    assert_eq!(r.label, "libpng");
    assert_eq!(r.worker_task_id, Some(9));
}

#[test]
fn corpus_watch_filter() {
    let s = CorpusSyncer::new(corpus_config(true), None).unwrap();
    assert_eq!(s.watch_filter_text(), ".*");
}
