use vstd::prelude::*;
use vstd::string::StringExecFns;

use std::time::SystemTime;

use crate::pattern::{compile_pattern, pattern_is_match, regex_compiles, regex_is_match, CompiledPattern};
use crate::time::{system_time_now, Since};

verus! {

/// The extension that downloaded corpus entries are stored under.
pub const CORPUS_FILE_EXT: &'static str = "corpus";

/// Where a corpus lives on disk and how it is kept in sync.
pub struct CorpusConfig {
    pub label: String,
    pub path: String,
    /// Seconds between two downloads of new corpus entries.
    pub refresh_interval: u64,
    /// Whether entries found locally are uploaded.
    pub upload: bool,
    /// The pattern that the file watcher applies to new files.
    pub upload_filter: String,
}

/// Why a synchroniser could not be set up.
#[derive(Debug, Clone, Copy, PartialEq, Eq)]
pub enum SyncError {
    /// The expression that recognises downloaded entries does not compile.
    InvalidPattern,
}

/// A request for the corpus entries of a label.
pub struct DownloadRequest {
    pub label: String,
    pub worker_task_id: Option<i32>,
    pub since: Since,
    /// The largest number of entries wanted, where there is one.
    pub limit: Option<u64>,
}

/// A file to upload, with the label and task it belongs to.
pub struct UploadRequest {
    pub file: String,
    pub label: String,
    pub worker_task_id: Option<i32>,
}

/// What to do with a file that the watcher reports.
pub enum UploadAction {
    Upload(UploadRequest),
    /// The file is left alone.
    Skip,
}

/// The regular expression that recognises files named with extension `ext`.
pub open spec fn extension_pattern(ext: Seq<char>) -> Seq<char> {
    ".*\\."@ + ext + "$"@
}

/// Builds the regular expression that recognises files named with the
/// extension `ext`.
pub fn corpus_file_pattern(ext: &str) -> (p: String)
    ensures
        p@ == extension_pattern(ext@),
{
    String::from_str(".*\\.").concat(ext).concat("$")
}

/// A file-system corpus synchroniser.
pub struct CorpusSyncer {
    config: CorpusConfig,
    worker_task_id: Option<i32>,
}

impl CorpusSyncer {
    pub closed spec fn label(self) -> Seq<char> {
        self.config.label@
    }

    pub closed spec fn path(self) -> Seq<char> {
        self.config.path@
    }

    pub closed spec fn refresh_interval(self) -> u64 {
        self.config.refresh_interval
    }

    pub closed spec fn uploads(self) -> bool {
        self.config.upload
    }

    pub closed spec fn task(self) -> Option<i32> {
        self.worker_task_id
    }

    pub closed spec fn watch_filter(self) -> Seq<char> {
        self.config.upload_filter@
    }

    /// Makes a synchroniser for `config`; this never fails.
    pub fn new(config: CorpusConfig, worker_task_id: Option<i32>) -> (res: Result<Self, SyncError>)
        ensures
            res is Ok,
            res matches Ok(s) ==> {
                &&& s.label() == config.label@
                &&& s.path() == config.path@
                &&& s.refresh_interval() == config.refresh_interval
                &&& s.uploads() == config.upload
                &&& s.watch_filter() == config.upload_filter@
                &&& s.task() == worker_task_id
            },
    {
        Ok(Self { config, worker_task_id })
    }

    /// The directory that holds the corpus.
    pub fn path_text(&self) -> (p: String)
        ensures
            p@ == self.path(),
    {
        self.config.path.clone()
    }

    /// The pattern that the file watcher of the upload side applies.
    pub fn watch_filter_text(&self) -> (p: String)
        ensures
            p@ == self.watch_filter(),
    {
        self.config.upload_filter.clone()
    }

    /// The first download, before the corpus is kept in sync: the whole
    /// corpus of the label, for the syncer's worker task.
    pub fn initial_download(&self) -> (req: DownloadRequest)
        ensures
            req.label@ == self.label(),
            req.worker_task_id == self.task(),
            req.since == Since::Beginning,
            req.limit is None,
    {
        DownloadRequest {
            label: self.config.label.clone(),
            worker_task_id: self.worker_task_id,
            since: Since::Beginning,
            limit: None,
        }
    }

    /// The state of the periodic download when it starts at `start`.
    pub fn download_sync_from(&self, start: SystemTime) -> (d: DownloadSync)
        ensures
            d.label@ == self.label(),
            d.worker_task_id == self.task(),
            d.refresh_interval == self.refresh_interval(),
            d.last_updated == start,
    {
        DownloadSync {
            label: self.config.label.clone(),
            worker_task_id: self.worker_task_id,
            refresh_interval: self.config.refresh_interval,
            last_updated: start,
        }
    }

    /// The state of the periodic download, starting now.
    pub fn download_sync(&self) -> (d: DownloadSync)
        ensures
            d.label@ == self.label(),
            d.worker_task_id == self.task(),
            d.refresh_interval == self.refresh_interval(),
    {
        self.download_sync_from(system_time_now())
    }

    /// The filter that the upload side applies, when uploads are on: files
    /// named with extension `ext` came from a download and are not sent
    /// back. `None` when uploads are off; `InvalidPattern` when the
    /// expression for `ext` does not compile.
    pub fn upload_filter_for(&self, ext: &str) -> (res: Result<Option<UploadFilter>, SyncError>)
        ensures
            !self.uploads() ==> res is Ok && res->Ok_0 is None,
            self.uploads() ==> (res is Ok <==> regex_compiles(extension_pattern(ext@))),
            self.uploads() && regex_compiles(extension_pattern(ext@)) ==> res matches Ok(Some(_)),
            res is Err ==> res->Err_0 == SyncError::InvalidPattern,
            res matches Ok(Some(f)) ==> {
                &&& f.excluded() == extension_pattern(ext@)
                &&& f.label() == self.label()
                &&& f.task() == self.task()
            },
    {
        if !self.config.upload {
            return Ok(None);
        }
        match compile_pattern(corpus_file_pattern(ext)) {
            Ok(p) => Ok(
                Some(
                    UploadFilter {
                        excluded: p,
                        label: self.config.label.clone(),
                        worker_task_id: self.worker_task_id,
                    },
                ),
            ),
            Err(_) => Err(SyncError::InvalidPattern),
        }
    }

    /// The upload filter for the corpus extension `CORPUS_FILE_EXT`.
    pub fn upload_filter(&self) -> (res: Result<Option<UploadFilter>, SyncError>)
        ensures
            !self.uploads() ==> res is Ok && res->Ok_0 is None,
            self.uploads() ==> (res is Ok <==> regex_compiles(extension_pattern(CORPUS_FILE_EXT@))),
            self.uploads() && regex_compiles(extension_pattern(CORPUS_FILE_EXT@)) ==> res matches Ok(Some(_)),
            res is Err ==> res->Err_0 == SyncError::InvalidPattern,
            res matches Ok(Some(f)) ==> {
                &&& f.excluded() == extension_pattern(CORPUS_FILE_EXT@)
                &&& f.label() == self.label()
                &&& f.task() == self.task()
            },
    {
        self.upload_filter_for(CORPUS_FILE_EXT)
    }
}

/// Where the download mark stands after a download ended at `now`.
pub open spec fn mark_after(last: SystemTime, succeeded: bool, now: SystemTime) -> SystemTime {
    if succeeded {
        now
    } else {
        last
    }
}

/// Where the download mark stands after a run of downloads, each given by
/// whether it succeeded and when it ended.
pub open spec fn mark_after_all(start: SystemTime, outcomes: Seq<(bool, SystemTime)>) -> SystemTime
    decreases outcomes.len(),
{
    if outcomes.len() == 0 {
        start
    } else {
        mark_after(mark_after_all(start, outcomes.drop_last()), outcomes.last().0, outcomes.last().1)
    }
}

/// While no download has succeeded, the download mark stays at the start
/// time: failures never move it.
pub proof fn lemma_mark_stays_without_success(start: SystemTime, outcomes: Seq<(bool, SystemTime)>)
    requires
        forall|i: int| 0 <= i < outcomes.len() ==> !(#[trigger] outcomes[i]).0,
    ensures
        mark_after_all(start, outcomes) == start,
    decreases outcomes.len(),
{
    if outcomes.len() > 0 {
        let rest = outcomes.drop_last();
        assert(!outcomes[outcomes.len() - 1].0);
        assert forall|i: int| 0 <= i < rest.len() implies !(#[trigger] rest[i]).0 by {
            assert(rest[i] == outcomes[i]);
        }
        lemma_mark_stays_without_success(start, rest);
    }
}

/// After a run of downloads, the download mark is the end of the last
/// successful one, whatever failed after it.
pub proof fn lemma_mark_is_last_success(
    start: SystemTime,
    outcomes: Seq<(bool, SystemTime)>,
    k: int,
)
    requires
        0 <= k < outcomes.len(),
        outcomes[k].0,
        forall|j: int| k < j < outcomes.len() ==> !(#[trigger] outcomes[j]).0,
    ensures
        mark_after_all(start, outcomes) == outcomes[k].1,
    decreases outcomes.len(),
{
    if k < outcomes.len() - 1 {
        let rest = outcomes.drop_last();
        assert(!outcomes[outcomes.len() - 1].0);
        assert(rest[k] == outcomes[k]);
        assert forall|j: int| k < j < rest.len() implies !(#[trigger] rest[j]).0 by {
            assert(rest[j] == outcomes[j]);
        }
        lemma_mark_is_last_success(start, rest, k);
    }
}

/// The state of the periodic download of new corpus entries.
pub struct DownloadSync {
    pub label: String,
    pub worker_task_id: Option<i32>,
    /// Seconds between two downloads.
    pub refresh_interval: u64,
    /// When the last successful download ended.
    pub last_updated: SystemTime,
}

impl DownloadSync {
    /// The next download: entries of the label newer than the last success.
    pub fn next_request(&self) -> (req: DownloadRequest)
        ensures
            req.label@ == self.label@,
            req.worker_task_id == self.worker_task_id,
            req.since == Since::At(self.last_updated),
            req.limit is None,
    {
        DownloadRequest {
            label: self.label.clone(),
            worker_task_id: self.worker_task_id,
            since: Since::At(self.last_updated),
            limit: None,
        }
    }

    /// Records how a download ended at `now`: a success moves the mark to
    /// `now`, a failure leaves it where it was.
    pub fn record_outcome_at(&mut self, succeeded: bool, now: SystemTime)
        ensures
            final(self).last_updated == mark_after(old(self).last_updated, succeeded, now),
            final(self).label == old(self).label,
            final(self).worker_task_id == old(self).worker_task_id,
            final(self).refresh_interval == old(self).refresh_interval,
    {
        if succeeded {
            self.last_updated = now;
        }
    }

    /// Records how a download ended, reading the clock on success.
    ///
    /// On success the new mark is whatever `SystemTime::now` returned, and
    /// nothing is claimed of that reading: the clock may go backwards or stand
    /// still, so it may equal the old mark. `record_outcome_at` states the
    /// exact change for a given reading.
    pub fn record_outcome(&mut self, succeeded: bool)
        ensures
            !succeeded ==> final(self).last_updated == old(self).last_updated,
            final(self).label == old(self).label,
            final(self).worker_task_id == old(self).worker_task_id,
            final(self).refresh_interval == old(self).refresh_interval,
    {
        if succeeded {
            let now = system_time_now();
            self.record_outcome_at(true, now);
        }
    }
}

/// Decides which new files the upload side sends.
pub struct UploadFilter {
    excluded: CompiledPattern,
    label: String,
    worker_task_id: Option<i32>,
}

impl UploadFilter {
    /// The expression that names files which are not uploaded.
    pub closed spec fn excluded(self) -> Seq<char> {
        self.excluded@
    }

    pub closed spec fn label(self) -> Seq<char> {
        self.label@
    }

    pub closed spec fn task(self) -> Option<i32> {
        self.worker_task_id
    }

    /// What to do with the new file `file`: skipped where the excluding
    /// expression matches its name, uploaded under the label otherwise.
    pub fn decide(&self, file: &str) -> (a: UploadAction)
        ensures
            regex_is_match(self.excluded(), file@) ==> a is Skip,
            !regex_is_match(self.excluded(), file@) ==> (a matches UploadAction::Upload(r) && {
                &&& r.file@ == file@
                &&& r.label@ == self.label()
                &&& r.worker_task_id == self.task()
            }),
    {
        if pattern_is_match(&self.excluded, file) {
            UploadAction::Skip
        } else {
            UploadAction::Upload(
                UploadRequest {
                    file: String::from_str(file),
                    label: self.label.clone(),
                    worker_task_id: self.worker_task_id,
                },
            )
        }
    }
}

} // verus!
