use vstd::prelude::*;
use vstd::string::{StrSliceExecFns, StringExecFns};

use std::time::SystemTime;

use crate::corpus::DownloadRequest;
use crate::intervals::WORKER_FUZZDRIVER_STAT_UPLOAD_INTERVAL_SECS;
use crate::time::{system_time_now, Since};

verus! {

/// The kinds of coverage statistics collectors.
#[derive(Debug, Clone, Copy, PartialEq, Eq)]
pub enum StatCollectorEnum {
    LCov,
}

/// How a target program is run.
pub struct ExecutorConfig {
    pub executable: String,
    pub args: Vec<String>,
    pub cwd: String,
}

/// Which collector gathers statistics, and how the instrumented target runs.
pub struct FuzzStatConfig {
    pub collector: StatCollectorEnum,
    pub execution: ExecutorConfig,
}

/// The number of corpus entries that a coverage run downloads.
pub const STAT_CORPUS_LIMIT: u64 = 10;

/// Seconds between two statistics uploads, unless a collector says otherwise.
pub fn default_refresh_secs() -> (s: u64)
    ensures
        s == WORKER_FUZZDRIVER_STAT_UPLOAD_INTERVAL_SECS,
{
    WORKER_FUZZDRIVER_STAT_UPLOAD_INTERVAL_SECS
}

/// What a round of statistics collection hands on for submission: the
/// statistic where one was collected; nothing where there was none or the
/// collection failed.
pub open spec fn spec_stat_to_submit<S, E>(res: Result<Option<S>, E>) -> Option<S> {
    match res {
        Ok(Some(s)) => Some(s),
        _ => None,
    }
}

/// Decides what a round of statistics collection submits.
pub fn stat_to_submit<S, E>(res: Result<Option<S>, E>) -> (out: Option<S>)
    ensures
        out == spec_stat_to_submit(res),
        res is Err ==> out is None,
        res == Ok::<Option<S>, E>(None) ==> out is None,
        forall|st: S| res == Ok::<Option<S>, E>(Some(st)) ==> out == Some(st),
{
    match res {
        Ok(Some(s)) => Some(s),
        _ => None,
    }
}

/// The index of the last `.` in `s`, or `-1`.
pub open spec fn last_dot(s: Seq<char>) -> int
    decreases s.len(),
{
    if s.len() == 0 {
        -1
    } else if s.last() == '.' {
        s.len() - 1
    } else {
        last_dot(s.drop_last())
    }
}

/// The extension of a file name, that is of a path's last component, as
/// `std::path::Path::extension` gives it: the text after the last `.`,
/// unless there is no `.`, the only `.` is the first character, or the name
/// is `..`. The name is not split at `/`: for a whole path this agrees with
/// `Path::extension` only where the path has no `/`.
pub open spec fn file_name_extension(name: Seq<char>) -> Option<Seq<char>> {
    if (name.len() == 2 && name[0] == '.' && name[1] == '.') || last_dot(name) <= 0 {
        None
    } else {
        Some(name.subrange(last_dot(name) + 1, name.len() as int))
    }
}

/// Whether a file name has the extension `json`.
pub open spec fn is_json_report(name: Seq<char>) -> bool {
    file_name_extension(name) == Some("json"@)
}

proof fn lemma_last_dot_at(s: Seq<char>, k: int)
    requires
        0 <= k < s.len(),
        s[k] == '.',
        forall|j: int| k < j < s.len() ==> s[j] != '.',
    ensures
        last_dot(s) == k,
    decreases s.len(),
{
    if s.last() != '.' {
        lemma_last_dot_at(s.drop_last(), k);
    }
}

proof fn lemma_last_dot_none(s: Seq<char>)
    requires
        forall|j: int| 0 <= j < s.len() ==> s[j] != '.',
    ensures
        last_dot(s) == -1,
    decreases s.len(),
{
    if s.len() > 0 {
        lemma_last_dot_none(s.drop_last());
    }
}

/// The extension of the file name `name`.
pub fn extension_of(name: &str) -> (res: Option<String>)
    ensures
        res is None <==> file_name_extension(name@) is None,
        res matches Some(e) ==> file_name_extension(name@) == Some(e@),
{
    let n = name.unicode_len();
    let mut i = n;
    let mut found = false;
    while i > 0 && !found
        invariant
            n == name@.len(),
            i <= n,
            found ==> i >= 1 && name@[i - 1] == '.',
            forall|j: int| i <= j < n ==> name@[j] != '.',
        decreases 2 * i + (if found { 0int } else { 1int }),
    {
        if name.get_char(i - 1) == '.' {
            found = true;
        } else {
            i = i - 1;
        }
    }
    if !found {
        proof {
            lemma_last_dot_none(name@);
        }
        return None;
    }
    let k = i - 1;
    proof {
        lemma_last_dot_at(name@, k as int);
    }
    if k == 0 {
        return None;
    }
    if n == 2 && name.get_char(0) == '.' && name.get_char(1) == '.' {
        return None;
    }
    let ext = name.substring_char(k + 1, n);
    Some(String::from_str(ext))
}

proof fn lemma_last_dot_is_last(s: Seq<char>)
    ensures
        forall|j: int| last_dot(s) < j < s.len() ==> s[j] != '.',
    decreases s.len(),
{
    lemma_last_dot_bounds(s);
    if s.len() > 0 && s.last() != '.' {
        lemma_last_dot_bounds(s.drop_last());
        lemma_last_dot_is_last(s.drop_last());
        assert forall|j: int| last_dot(s) < j < s.len() implies s[j] != '.' by {
            if j < s.len() - 1 {
                assert(s[j] == s.drop_last()[j]);
            }
        }
    }
}

/// What an extension is: where a file name has one, the name is a
/// non-empty stem, a `.` and the extension, and the extension holds no
/// `.`; where it has none, the name is `..` or holds no `.` after its
/// first character.
pub proof fn lemma_extension_shape(name: Seq<char>)
    ensures
        file_name_extension(name) matches Some(e) ==> {
            &&& name.len() >= e.len() + 2
            &&& name =~= name.subrange(0, name.len() - e.len() - 1) + seq!['.'] + e
            &&& forall|i: int| 0 <= i < e.len() ==> e[i] != '.'
        },
        file_name_extension(name) is None ==> (name.len() == 2 && name[0] == '.' && name[1]
            == '.') || forall|j: int| 0 < j < name.len() ==> name[j] != '.',
{
    lemma_last_dot_bounds(name);
    lemma_last_dot_is_last(name);
    let k = last_dot(name);
    let n = name.len() as int;
    if let Some(e) = file_name_extension(name) {
        assert(e =~= name.subrange(k + 1, n));
        assert forall|i: int| 0 <= i < e.len() implies e[i] != '.' by {
            assert(e[i] == name[k + 1 + i]);
        }
        assert(name =~= name.subrange(0, n - e.len() - 1) + seq!['.'] + e);
    }
}

/// A file name has the extension `json` exactly when it ends in `.json`
/// with at least one character before that dot.
pub proof fn lemma_json_extension_is_suffix(name: Seq<char>)
    ensures
        (file_name_extension(name) == Some("json"@)) <==> (name.len() >= 6 && name.subrange(
            name.len() - 5,
            name.len() as int,
        ) == ".json"@),
{
    reveal_strlit("json");
    reveal_strlit(".json");
    assert("json"@ =~= seq!['j', 's', 'o', 'n']);
    assert(".json"@ =~= seq!['.', 'j', 's', 'o', 'n']);
    let n = name.len() as int;
    if file_name_extension(name) == Some("json"@) {
        let k = last_dot(name);
        lemma_last_dot_bounds(name);
        assert(name.subrange(k + 1, n) == "json"@);
        assert(k == n - 5);
        assert forall|i: int| 1 <= i < 5 implies name[n - 5 + i] == ".json"@[i] by {
            assert(name[n - 5 + i] == name.subrange(k + 1, n)[i - 1]);
        }
        assert(name.subrange(n - 5, n) =~= ".json"@);
    }
    if name.len() >= 6 && name.subrange(n - 5, n) == ".json"@ {
        assert(name[n - 5] == name.subrange(n - 5, n)[0]);
        assert forall|j: int| n - 5 < j < n implies name[j] != '.' by {
            assert(name[j] == name.subrange(n - 5, n)[j - (n - 5)]);
        }
        lemma_last_dot_at(name, n - 5);
        assert forall|i: int| 0 <= i < 4 implies name[n - 4 + i] == "json"@[i] by {
            assert(name[n - 4 + i] == name.subrange(n - 5, n)[i + 1]);
        }
        assert(name.subrange(n - 4, n) =~= "json"@);
    }
}

proof fn lemma_last_dot_bounds(s: Seq<char>)
    ensures
        -1 <= last_dot(s) < s.len(),
        last_dot(s) >= 0 ==> s[last_dot(s)] == '.',
    decreases s.len(),
{
    if s.len() > 0 && s.last() != '.' {
        lemma_last_dot_bounds(s.drop_last());
    }
}

/// Whether the file name `name` has the extension `json`, that is ends in
/// `.json` with at least one character before the dot.
pub fn is_json_file(name: &str) -> (b: bool)
    ensures
        b == is_json_report(name@),
        b == (file_name_extension(name@) == Some("json"@)),
        b <==> (name@.len() >= 6 && name@.subrange(name@.len() - 5, name@.len() as int) == ".json"@),
{
    proof {
        lemma_json_extension_is_suffix(name@);
    }
    match extension_of(name) {
        Some(e) => e == String::from_str("json"),
        None => false,
    }
}

/// The `json` files among `names`, in their order.
pub fn json_report_files(names: &Vec<String>) -> (res: Vec<String>)
    ensures
        res@ == json_reports(names@),
        res@.len() <= names@.len(),
        forall|k: int|
            0 <= k < res@.len() ==> file_name_extension((#[trigger] res@[k])@) == Some("json"@)
                && names@.contains(res@[k]),
        forall|j: int|
            0 <= j < names@.len() && file_name_extension((#[trigger] names@[j])@) == Some(
                "json"@,
            ) ==> res@.contains(names@[j]),
{
    proof {
        lemma_json_reports_exact(names@);
    }
    let ghost pred = |s: String| is_json_report(s@);
    let mut res: Vec<String> = Vec::new();
    let n = names.len();
    let mut i: usize = 0;
    while i < n
        invariant
            n == names@.len(),
            i <= n,
            pred == (|s: String| is_json_report(s@)),
            res@ == names@.take(i as int).filter(pred),
        decreases n - i,
    {
        proof {
            reveal_with_fuel(Seq::<_>::filter, 1);
            assert(names@.take(i + 1).drop_last() =~= names@.take(i as int));
        }
        let name = names[i].as_str();
        if is_json_file(name) {
            res.push(names[i].clone());
        }
        proof {
            let t = names@.take(i + 1);
            assert(t.last() == names@[i as int]);
            assert(res@ =~= t.filter(pred));
        }
        i = i + 1;
    }
    assert(names@.take(n as int) =~= names@);
    res
}

/// The `json` file names among `names`, in their order.
pub open spec fn json_reports(names: Seq<String>) -> Seq<String> {
    names.filter(|s: String| is_json_report(s@))
}

/// Every name that `json_report_files` keeps is a file name of the input
/// whose extension is `json`, no name is added, and every input name with
/// the extension `json` is kept.
pub proof fn lemma_json_reports_exact(names: Seq<String>)
    ensures
        json_reports(names).len() <= names.len(),
        forall|j: int|
            0 <= j < json_reports(names).len() ==> file_name_extension(
                (#[trigger] json_reports(names)[j])@,
            ) == Some("json"@) && names.contains(json_reports(names)[j]),
        forall|j: int|
            0 <= j < names.len() && file_name_extension((#[trigger] names[j])@) == Some("json"@)
                ==> json_reports(names).contains(names[j]),
{
    broadcast use vstd::seq_lib::group_filter_ensures;
    let pred = |s: String| is_json_report(s@);
    assert forall|j: int| 0 <= j < json_reports(names).len() implies file_name_extension(
        (#[trigger] json_reports(names)[j])@,
    ) == Some("json"@) && names.contains(json_reports(names)[j]) by {
        assert(pred(names.filter(pred)[j]));
        names.lemma_filter_contains_rev(pred, names.filter(pred)[j]);
    }
    assert forall|j: int|
        0 <= j < names.len() && file_name_extension((#[trigger] names[j])@) == Some(
            "json"@,
        ) implies json_reports(names).contains(names[j]) by {
        assert(pred(names[j]));
        names.lemma_filter_contains(pred, j);
    }
}

/// Gathers coverage statistics with llvm-cov.
pub struct LlvmCovCollector {
    config: FuzzStatConfig,
    worker_task_id: Option<i32>,
    corpus_label: String,
    last_sync: SystemTime,
}

impl LlvmCovCollector {
    pub closed spec fn collector(self) -> StatCollectorEnum {
        self.config.collector
    }

    pub closed spec fn task(self) -> Option<i32> {
        self.worker_task_id
    }

    /// How the instrumented target runs.
    pub closed spec fn execution(self) -> ExecutorConfig {
        self.config.execution
    }

    pub closed spec fn corpus_label(self) -> Seq<char> {
        self.corpus_label@
    }

    pub closed spec fn last_sync(self) -> SystemTime {
        self.last_sync
    }

    /// A collector whose corpus downloads start after `last_sync`.
    pub fn with_last_sync(
        config: FuzzStatConfig,
        corpus_label: String,
        worker_task_id: Option<i32>,
        last_sync: SystemTime,
    ) -> (c: Self)
        ensures
            c.collector() == config.collector,
            c.execution() == config.execution,
            c.corpus_label() == corpus_label@,
            c.task() == worker_task_id,
            c.last_sync() == last_sync,
    {
        Self { config, worker_task_id, corpus_label, last_sync }
    }

    /// A collector whose corpus downloads start now.
    pub fn new(config: FuzzStatConfig, corpus_label: String, worker_task_id: Option<i32>) -> (c: Self)
        ensures
            c.collector() == config.collector,
            c.execution() == config.execution,
            c.corpus_label() == corpus_label@,
            c.task() == worker_task_id,
    {
        Self::with_last_sync(config, corpus_label, worker_task_id, system_time_now())
    }

    /// How the instrumented target runs.
    pub fn execution_config(&self) -> (e: &ExecutorConfig)
        ensures
            *e == self.execution(),
    {
        &self.config.execution
    }

    /// The download that precedes a coverage run: at most
    /// `STAT_CORPUS_LIMIT` entries of the corpus label that are newer than
    /// the collector's last sync.
    pub fn corpus_download(&self) -> (req: DownloadRequest)
        ensures
            req.label@ == self.corpus_label(),
            req.worker_task_id == self.task(),
            req.since == Since::At(self.last_sync()),
            req.limit == Some(STAT_CORPUS_LIMIT),
    {
        DownloadRequest {
            label: self.corpus_label.clone(),
            worker_task_id: self.worker_task_id,
            since: Since::At(self.last_sync),
            limit: Some(STAT_CORPUS_LIMIT),
        }
    }

    /// Seconds between two rounds of collection.
    pub fn refresh_secs(&self) -> (s: u64)
        ensures
            s == WORKER_FUZZDRIVER_STAT_UPLOAD_INTERVAL_SECS,
    {
        default_refresh_secs()
    }
}

} // verus!
