use vstd::prelude::*;
use vstd::string::StringExecFns;

use crate::corpus::{SyncError, UploadRequest};

verus! {

/// Where crashes are written and under which label they are reported.
pub struct CrashConfig {
    pub label: String,
    pub path: String,
    /// The pattern that the file watcher applies to new files.
    pub filter: String,
}

/// A file-system crash synchroniser.
pub struct CrashSyncer {
    config: CrashConfig,
    worker_task_id: Option<i32>,
}

impl CrashSyncer {
    pub closed spec fn label(self) -> Seq<char> {
        self.config.label@
    }

    pub closed spec fn path(self) -> Seq<char> {
        self.config.path@
    }

    pub closed spec fn filter(self) -> Seq<char> {
        self.config.filter@
    }

    pub closed spec fn task(self) -> Option<i32> {
        self.worker_task_id
    }

    /// Makes a synchroniser for `config`; this never fails.
    pub fn new(config: CrashConfig, worker_task_id: Option<i32>) -> (res: Result<Self, SyncError>)
        ensures
            res is Ok,
            res matches Ok(s) ==> {
                &&& s.label() == config.label@
                &&& s.path() == config.path@
                &&& s.filter() == config.filter@
                &&& s.task() == worker_task_id
            },
    {
        Ok(Self { config, worker_task_id })
    }

    /// The directory that the watcher observes.
    pub fn path_text(&self) -> (p: String)
        ensures
            p@ == self.path(),
    {
        self.config.path.clone()
    }

    /// The pattern that the watcher applies to new files.
    pub fn filter_text(&self) -> (p: String)
        ensures
            p@ == self.filter(),
    {
        self.config.filter.clone()
    }

    /// Every new crash file is uploaded under the label, for the syncer's worker task.
    pub fn upload_request(&self, file: &str) -> (r: UploadRequest)
        ensures
            r.file@ == file@,
            r.label@ == self.label(),
            r.worker_task_id == self.task(),
    {
        UploadRequest {
            file: String::from_str(file),
            label: self.config.label.clone(),
            worker_task_id: self.worker_task_id,
        }
    }
}

} // verus!
