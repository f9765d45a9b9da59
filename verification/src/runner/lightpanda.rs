//! The Lightpanda runner: it opens a page with the `lightpanda fetch`
//! command. This module holds its decisions: which input it accepts, the
//! command it runs, what it reports of each way the process can end, and
//! the table of running processes that cancellation uses.

pub mod cli;
pub mod models;
pub mod parser;

use vstd::prelude::*;
use crate::json::{JsonValue, JsonView, JsonMember, member, object, text, opt_text, opt_str_view,
    opt_string_view, opt_unsigned, opt_signed, opt_str_value, opt_string_into, opt_unsigned_value,
    opt_signed_value, members_view, lemma_members_view_len, field, lemma_lookup_index};
use crate::runner::{RunnerCapabilities, RunnerCancelResult, RunnerExecutionResult,
    RunnerOutcomeStatus, RunnerTask, execution_view};
use crate::text::{lemma_trim_idempotent, trimmed, has_prefix, decimal, signed_decimal, output_preview, trim_str,
    starts_with_text, u64_text, i64_text};

verus! {

// ---------------------------------------------------------------------------
// The table of running processes.

/// Whether no two entries share a task identifier.
pub open spec fn keys_distinct(entries: Seq<(String, u32)>) -> bool {
    forall|i: int, j: int| 0 <= i < entries.len() && 0 <= j < entries.len() && i != j
        ==> (#[trigger] entries[i]).0@ != (#[trigger] entries[j]).0@
}

/// The map from task identifier to process id that the entries hold.
pub open spec fn entries_map(entries: Seq<(String, u32)>) -> Map<Seq<char>, u32>
    decreases entries.len(),
{
    if entries.len() == 0 {
        Map::empty()
    } else {
        entries_map(entries.drop_last()).insert(entries.last().0@, entries.last().1)
    }
}

/// The entries' map holds exactly their keys, each with its entry's value.
proof fn lemma_entries_map(entries: Seq<(String, u32)>)
    requires
        keys_distinct(entries),
    ensures
        forall|k: Seq<char>| entries_map(entries).contains_key(k)
            <==> exists|i: int| 0 <= i < entries.len() && (#[trigger] entries[i]).0@ == k,
        forall|i: int| 0 <= i < entries.len()
            ==> entries_map(entries)[(#[trigger] entries[i]).0@] == entries[i].1,
    decreases entries.len(),
{
    if entries.len() > 0 {
        let rest = entries.drop_last();
        assert(keys_distinct(rest)) by {
            assert forall|i: int, j: int| 0 <= i < rest.len() && 0 <= j < rest.len() && i != j
                implies (#[trigger] rest[i]).0@ != (#[trigger] rest[j]).0@ by {
                assert(rest[i] == entries[i] && rest[j] == entries[j]);
            }
        }
        lemma_entries_map(rest);
        assert forall|k: Seq<char>| #[trigger] entries_map(entries).contains_key(k)
            implies exists|i: int| 0 <= i < entries.len() && (#[trigger] entries[i]).0@ == k by {
            if k == entries.last().0@ {
                assert(entries[entries.len() - 1].0@ == k);
            } else {
                assert(entries_map(rest).contains_key(k));
                let i = choose|i: int| 0 <= i < rest.len() && (#[trigger] rest[i]).0@ == k;
                assert(rest[i] == entries[i]);
                assert(entries[i].0@ == k);
            }
        }
        assert forall|i: int| 0 <= i < entries.len()
            implies entries_map(entries).contains_key((#[trigger] entries[i]).0@) by {
            if i < entries.len() - 1 {
                assert(rest[i] == entries[i]);
                assert(entries_map(rest).contains_key(rest[i].0@));
            }
        }
        assert forall|i: int| 0 <= i < entries.len()
            implies entries_map(entries)[(#[trigger] entries[i]).0@] == entries[i].1 by {
            if i < entries.len() - 1 {
                assert(rest[i] == entries[i]);
                assert(entries[i].0@ != entries[entries.len() - 1].0@);
            }
        }
    }
}

/// The process ids of running tasks, by task identifier.
///
/// The table is a vector of entries with distinct keys. vstd's `HashMap`
/// specification describes lookups only for key types for which
/// `obeys_key_model` holds, which it establishes for integer and `bool`
/// keys but not for `String`, so a `HashMap<String, u32>` would give no
/// provable lookup result here.
#[derive(Debug)]
pub struct RunningTasks {
    entries: Vec<(String, u32)>,
}

impl RunningTasks {
    #[verifier::type_invariant]
    spec fn well_formed(self) -> bool {
        keys_distinct(self.entries@)
    }

    /// The process id of each running task.
    pub closed spec fn view_map(self) -> Map<Seq<char>, u32> {
        entries_map(self.entries@)
    }

    /// An empty table.
    pub fn new() -> (t: RunningTasks)
        ensures
            t.view_map() == Map::<Seq<char>, u32>::empty(),
    {
        RunningTasks { entries: Vec::new() }
    }

    /// The position of `task_id` in the entries, if present.
    fn position(&self, task_id: &str) -> (r: Option<usize>)
        ensures
            match r {
                Some(i) => i < self.entries@.len() && self.entries@[i as int].0@ == task_id@,
                None => forall|i: int| 0 <= i < self.entries@.len() ==> (#[trigger] self.entries@[i]).0@ != task_id@,
            },
    {
        let key = task_id.to_string();
        let mut i: usize = 0;
        while i < self.entries.len()
            invariant
                i <= self.entries@.len(),
                key@ == task_id@,
                forall|j: int| 0 <= j < i ==> (#[trigger] self.entries@[j]).0@ != task_id@,
            decreases self.entries@.len() - i,
        {
            if self.entries[i].0 == key {
                return Some(i);
            }
            i = i + 1;
        }
        None
    }

    /// The process id recorded for `task_id`.
    pub fn get(&self, task_id: &str) -> (r: Option<u32>)
        ensures
            r == (if self.view_map().contains_key(task_id@) { Some(self.view_map()[task_id@]) } else { None::<u32> }),
    {
        proof {
            use_type_invariant(self);
            lemma_entries_map(self.entries@);
        }
        match self.position(task_id) {
            Some(i) => Some(self.entries[i].1),
            None => None,
        }
    }

    /// Forgets `task_id`.
    pub fn remove(&mut self, task_id: &str)
        ensures
            final(self).view_map() == old(self).view_map().remove(task_id@),
    {
        proof {
            use_type_invariant(&*self);
            lemma_entries_map(self.entries@);
        }
        match self.position(task_id) {
            Some(i) => {
                let ghost before = self.entries@;
                let mut entries: Vec<(String, u32)> = Vec::new();
        std::mem::swap(&mut entries, &mut self.entries);
                assert(entries@ == before);
                let _ = entries.remove(i);
                let ghost after = entries@;
                assert(after =~= before.remove(i as int));
                assert(keys_distinct(after)) by {
                    assert forall|a: int, b: int| 0 <= a < after.len() && 0 <= b < after.len() && a != b
                        implies (#[trigger] after[a]).0@ != (#[trigger] after[b]).0@ by {
                        let a0 = if a < i { a } else { a + 1 };
                        let b0 = if b < i { b } else { b + 1 };
                        assert(after[a] == before[a0] && after[b] == before[b0]);
                    }
                }
                proof {
                    lemma_entries_map(after);
                    assert(entries_map(after) =~= entries_map(before).remove(task_id@)) by {
                        assert forall|k: Seq<char>| entries_map(after).contains_key(k)
                            <==> entries_map(before).remove(task_id@).contains_key(k) by {
                            if entries_map(after).contains_key(k) {
                                let a = choose|a: int| 0 <= a < after.len() && (#[trigger] after[a]).0@ == k;
                                let a0 = if a < i { a } else { a + 1 };
                                assert(after[a] == before[a0]);
                                assert(a0 != i);
                            }
                            if entries_map(before).remove(task_id@).contains_key(k) {
                                let b = choose|b: int| 0 <= b < before.len() && (#[trigger] before[b]).0@ == k;
                                assert(b != i);
                                let a = if b < i { b } else { b - 1 };
                                assert(after[a] == before[b]);
                            }
                        }
                        assert forall|k: Seq<char>| #[trigger] entries_map(after).contains_key(k)
                            implies entries_map(after)[k] == entries_map(before).remove(task_id@)[k] by {
                            let a = choose|a: int| 0 <= a < after.len() && (#[trigger] after[a]).0@ == k;
                            let a0 = if a < i { a } else { a + 1 };
                            assert(after[a] == before[a0]);
                        }
                    }
                }
                self.entries = entries;
            },
            None => {
                proof {
                    assert(!entries_map(self.entries@).contains_key(task_id@));
                    assert(entries_map(self.entries@).remove(task_id@) =~= entries_map(self.entries@));
                }
            },
        }
    }

    /// Records `pid` for `task_id`, replacing what was recorded.
    pub fn insert(&mut self, task_id: &str, pid: u32)
        ensures
            final(self).view_map() == old(self).view_map().insert(task_id@, pid),
    {
        self.remove(task_id);
        proof {
            use_type_invariant(&*self);
            lemma_entries_map(self.entries@);
        }
        let ghost before = self.entries@;
        let mut entries: Vec<(String, u32)> = Vec::new();
        std::mem::swap(&mut entries, &mut self.entries);
        assert(entries@ == before);
        entries.push((task_id.to_string(), pid));
        proof {
            let after = entries@;
            assert(after.drop_last() =~= before);
            assert(keys_distinct(after)) by {
                assert forall|a: int, b: int| 0 <= a < after.len() && 0 <= b < after.len() && a != b
                    implies (#[trigger] after[a]).0@ != (#[trigger] after[b]).0@ by {
                    if a < before.len() && b < before.len() {
                        assert(after[a] == before[a] && after[b] == before[b]);
                    } else if a < before.len() {
                        assert(after[a] == before[a]);
                        assert(!entries_map(before).contains_key(task_id@));
                    } else {
                        assert(after[b] == before[b]);
                        assert(!entries_map(before).contains_key(task_id@));
                    }
                }
            }
            assert(entries_map(before).remove(task_id@).insert(task_id@, pid)
                =~= old(self).view_map().insert(task_id@, pid));
        }
        self.entries = entries;
    }
}

// ---------------------------------------------------------------------------
// Input checks and the command line.

/// The url a payload carries: the trimmed text under `url`, when that is a
/// non-empty string.
pub open spec fn payload_url(payload: JsonView) -> Option<Seq<char>> {
    match field(payload, "url"@) {
        Some(JsonView::Text(t)) => if trimmed(t).len() > 0 { Some(trimmed(t)) } else { None },
        _ => None,
    }
}

/// Whether a url is one the runner opens: `http://` or `https://`.
pub open spec fn is_web_url(url: Seq<char>) -> bool {
    has_prefix(url, "http://"@) || has_prefix(url, "https://"@)
}

/// The fetch timeout for a requested timeout: 10 seconds when none is
/// given, kept within 1 to 120 seconds.
pub open spec fn fetch_timeout(requested: Option<i64>) -> u64 {
    let t = match requested { Some(v) => v as int, None => 10 };
    if t < 1 { 1 } else if t > 120 { 120 } else { t as u64 }
}

/// The binary a `LIGHTPANDA_BIN` setting names: its trimmed text when not
/// empty, else `lightpanda`.
pub open spec fn lightpanda_bin_for(setting: Option<Seq<char>>) -> Seq<char> {
    match setting {
        Some(v) => if trimmed(v).len() > 0 { trimmed(v) } else { "lightpanda"@ },
        None => "lightpanda"@,
    }
}

/// The url a payload carries, when it carries a non-empty one.
pub fn extract_url(payload: &JsonValue) -> (url: Option<String>)
    ensures
        opt_string_view(url) == payload_url(payload@),
{
    match payload.get("url") {
        Some(v) => match v.as_str() {
            Some(s) => {
                let t = trim_str(s);
                if t.unicode_len() == 0 { None } else { Some(t.to_string()) }
            },
            None => None,
        },
        None => None,
    }
}

/// Whether the runner opens `url`.
pub fn looks_like_url(url: &str) -> (ok: bool)
    ensures
        ok == is_web_url(url@),
{
    starts_with_text(url, "http://") || starts_with_text(url, "https://")
}

/// The binary to run for a `LIGHTPANDA_BIN` setting.
pub fn lightpanda_bin(setting: Option<&str>) -> (bin: String)
    ensures
        bin@ == lightpanda_bin_for(opt_str_view(setting)),
{
    match setting {
        Some(v) => {
            let t = trim_str(v);
            if t.unicode_len() == 0 { "lightpanda".to_string() } else { t.to_string() }
        },
        None => "lightpanda".to_string(),
    }
}

/// The fetch timeout for a requested timeout.
pub fn fetch_timeout_seconds(requested: Option<i64>) -> (t: u64)
    ensures
        t == fetch_timeout(requested),
        1 <= t <= 120,
{
    let t = match requested { Some(v) => v, None => 10 };
    if t < 1 { 1 } else if t > 120 { 120 } else { t as u64 }
}

/// The trimmed text of `s`, cut to `max_chars` characters and marked with
/// `...[truncated]` when longer.
pub fn truncate_output(s: &str, max_chars: usize) -> (out: String)
    ensures
        out@ == output_preview(s@, max_chars as nat),
{
    let t = trim_str(s);
    let n = t.unicode_len();
    if n > max_chars {
        let mut out = t.substring_char(0, max_chars).to_string();
        out.append("...[truncated]");
        assert(t@.subrange(0, max_chars as int) =~= t@.take(max_chars as int));
        out
    } else {
        t.to_string()
    }
}

// ---------------------------------------------------------------------------
// Reports.

/// The result document of a Lightpanda run.
pub open spec fn lightpanda_payload(
    ok: bool,
    status: Seq<char>,
    error_kind: Option<Seq<char>>,
    url: Option<Seq<char>>,
    timeout_seconds: Option<u64>,
    bin: Option<Seq<char>>,
    exit_code: Option<i32>,
    stdout_preview: Option<Seq<char>>,
    stderr_preview: Option<Seq<char>>,
    message: Seq<char>,
) -> JsonView {
    JsonView::Object(seq![
        ("runner"@, JsonView::Text("lightpanda"@)),
        ("action"@, JsonView::Text("open_page"@)),
        ("ok"@, JsonView::Bool(ok)),
        ("status"@, JsonView::Text(status)),
        ("error_kind"@, opt_text(error_kind)),
        ("url"@, opt_text(url)),
        ("timeout_seconds"@, opt_unsigned(timeout_seconds)),
        ("bin"@, opt_text(bin)),
        ("exit_code"@, opt_signed(exit_code)),
        ("stdout_preview"@, opt_text(stdout_preview)),
        ("stderr_preview"@, opt_text(stderr_preview)),
        ("message"@, JsonView::Text(message)),
    ])
}

/// The result document of a Lightpanda run.
pub fn result_payload(
    ok: bool,
    status: &str,
    error_kind: Option<&str>,
    url: Option<&str>,
    timeout_seconds: Option<u64>,
    bin: Option<&str>,
    exit_code: Option<i32>,
    stdout_preview: Option<String>,
    stderr_preview: Option<String>,
    message: &str,
) -> (v: JsonValue)
    ensures
        v@ == lightpanda_payload(ok, status@, opt_str_view(error_kind), opt_str_view(url),
            timeout_seconds, opt_str_view(bin), exit_code, opt_string_view(stdout_preview),
            opt_string_view(stderr_preview), message@),
{
    let ghost stdout_v = opt_string_view(stdout_preview);
    let ghost stderr_v = opt_string_view(stderr_preview);
    let mut ms: Vec<JsonMember> = Vec::new();
    ms.push(member("runner", text("lightpanda")));
    ms.push(member("action", text("open_page")));
    ms.push(member("ok", JsonValue::Bool(ok)));
    ms.push(member("status", text(status)));
    ms.push(member("error_kind", opt_str_value(error_kind)));
    ms.push(member("url", opt_str_value(url)));
    ms.push(member("timeout_seconds", opt_unsigned_value(timeout_seconds)));
    ms.push(member("bin", opt_str_value(bin)));
    ms.push(member("exit_code", opt_signed_value(exit_code)));
    ms.push(member("stdout_preview", opt_string_into(stdout_preview)));
    ms.push(member("stderr_preview", opt_string_into(stderr_preview)));
    ms.push(member("message", text(message)));
    proof {
        lemma_members_view_len(ms@);
        assert(members_view(ms@) =~= seq![
            ("runner"@, JsonView::Text("lightpanda"@)),
            ("action"@, JsonView::Text("open_page"@)),
            ("ok"@, JsonView::Bool(ok)),
            ("status"@, JsonView::Text(status@)),
            ("error_kind"@, opt_text(opt_str_view(error_kind))),
            ("url"@, opt_text(opt_str_view(url))),
            ("timeout_seconds"@, opt_unsigned(timeout_seconds)),
            ("bin"@, opt_text(opt_str_view(bin))),
            ("exit_code"@, opt_signed(exit_code)),
            ("stdout_preview"@, opt_text(stdout_v)),
            ("stderr_preview"@, opt_text(stderr_v)),
            ("message"@, JsonView::Text(message@)),
        ]);
        reveal_strlit("runner");
        reveal_strlit("action");
        reveal_strlit("ok");
        reveal_strlit("status");
        reveal_strlit("error_kind");
        reveal_strlit("url");
        reveal_strlit("timeout_seconds");
        reveal_strlit("bin");
        reveal_strlit("exit_code");
        reveal_strlit("stdout_preview");
        reveal_strlit("stderr_preview");
        reveal_strlit("message");
        assert(("runner"@).len() == 6);
        assert(("action"@).len() == 6);
        assert(("ok"@).len() == 2);
        assert(("status"@).len() == 6);
        assert(("error_kind"@).len() == 10);
        assert(("url"@).len() == 3);
        assert(("timeout_seconds"@).len() == 15);
        assert(("bin"@).len() == 3);
        assert(("exit_code"@).len() == 9);
        assert(("stdout_preview"@).len() == 14);
        assert(("stderr_preview"@).len() == 14);
        assert(("message"@).len() == 7);
        assert(("runner"@)[0] == 'r');
        assert(("action"@)[0] == 'a');
        assert(("ok"@)[0] == 'o');
        assert(("status"@)[0] == 's');
        assert(("error_kind"@)[0] == 'e');
        assert(("url"@)[0] == 'u');
        assert(("timeout_seconds"@)[0] == 't');
        assert(("bin"@)[0] == 'b');
        assert(("exit_code"@)[0] == 'e');
        assert(("stdout_preview"@)[0] == 's');
        assert(("stderr_preview"@)[0] == 's');
        assert(("message"@)[0] == 'm');
        assert(("stdout_preview"@)[3] == 'o');
        assert(("stderr_preview"@)[3] == 'e');
    }
    object(ms)
}

/// The members of a result document, read back by key: each key finds the
/// value it was given.
pub proof fn lemma_payload_fields(
    ok: bool,
    status: Seq<char>,
    error_kind: Option<Seq<char>>,
    url: Option<Seq<char>>,
    timeout_seconds: Option<u64>,
    bin: Option<Seq<char>>,
    exit_code: Option<i32>,
    stdout_preview: Option<Seq<char>>,
    stderr_preview: Option<Seq<char>>,
    message: Seq<char>,
)
    ensures
        ({
            let d = lightpanda_payload(ok, status, error_kind, url, timeout_seconds, bin, exit_code,
                stdout_preview, stderr_preview, message);
            &&& field(d, "runner"@) == Some(JsonView::Text("lightpanda"@))
            &&& field(d, "ok"@) == Some(JsonView::Bool(ok))
            &&& field(d, "status"@) == Some(JsonView::Text(status))
            &&& field(d, "error_kind"@) == Some(opt_text(error_kind))
            &&& field(d, "url"@) == Some(opt_text(url))
            &&& field(d, "timeout_seconds"@) == Some(opt_unsigned(timeout_seconds))
            &&& field(d, "bin"@) == Some(opt_text(bin))
            &&& field(d, "exit_code"@) == Some(opt_signed(exit_code))
            &&& field(d, "message"@) == Some(JsonView::Text(message))
        }),
{
    let d = lightpanda_payload(ok, status, error_kind, url, timeout_seconds, bin, exit_code,
        stdout_preview, stderr_preview, message);
    let ms = match d { JsonView::Object(m) => m, _ => Seq::empty() };
    reveal_strlit("runner");
    reveal_strlit("action");
    reveal_strlit("ok");
    reveal_strlit("status");
    reveal_strlit("error_kind");
    reveal_strlit("url");
    reveal_strlit("timeout_seconds");
    reveal_strlit("bin");
    reveal_strlit("exit_code");
    reveal_strlit("stdout_preview");
    reveal_strlit("stderr_preview");
    reveal_strlit("message");
    assert(("runner"@).len() == 6 && ("action"@).len() == 6 && ("ok"@).len() == 2);
    assert(("status"@).len() == 6 && ("error_kind"@).len() == 10 && ("url"@).len() == 3);
    assert(("timeout_seconds"@).len() == 15 && ("bin"@).len() == 3 && ("exit_code"@).len() == 9);
    assert(("stdout_preview"@).len() == 14 && ("stderr_preview"@).len() == 14 && ("message"@).len() == 7);
    assert(("runner"@)[0] == 'r' && ("action"@)[0] == 'a' && ("status"@)[0] == 's');
    assert(("url"@)[0] == 'u' && ("bin"@)[0] == 'b');
    lemma_lookup_index(ms, "runner"@, 0);
    lemma_lookup_index(ms, "ok"@, 2);
    lemma_lookup_index(ms, "status"@, 3);
    lemma_lookup_index(ms, "error_kind"@, 4);
    lemma_lookup_index(ms, "url"@, 5);
    lemma_lookup_index(ms, "timeout_seconds"@, 6);
    lemma_lookup_index(ms, "bin"@, 7);
    lemma_lookup_index(ms, "exit_code"@, 8);
    lemma_lookup_index(ms, "message"@, 11);
}

/// The name a result document gives each run status.
pub open spec fn run_status_name(s: RunnerOutcomeStatus) -> Seq<char> {
    match s {
        RunnerOutcomeStatus::Succeeded => "succeeded"@,
        RunnerOutcomeStatus::Failed => "failed"@,
        RunnerOutcomeStatus::TimedOut => "timeout"@,
    }
}

/// Whether a report's document agrees with its status: `ok` is true exactly
/// for a success, `status` names the run status, `error_kind` is null
/// exactly for a success and is `timeout` for a timeout, and there is an
/// error message exactly when the run did not succeed.
pub open spec fn report_consistent(r: (RunnerOutcomeStatus, Option<JsonView>, Option<Seq<char>>)) -> bool {
    let (status, doc, err) = r;
    &&& doc is Some
    &&& field(doc->0, "runner"@) == Some(JsonView::Text("lightpanda"@))
    &&& field(doc->0, "ok"@) == Some(JsonView::Bool(status == RunnerOutcomeStatus::Succeeded))
    &&& field(doc->0, "status"@) == Some(JsonView::Text(run_status_name(status)))
    &&& (field(doc->0, "error_kind"@) == Some(JsonView::Null)) == (status == RunnerOutcomeStatus::Succeeded)
    &&& status == RunnerOutcomeStatus::TimedOut ==> field(doc->0, "error_kind"@) == Some(JsonView::Text("timeout"@))
    &&& (err is None) == (status == RunnerOutcomeStatus::Succeeded)
    &&& err matches Some(m) ==> field(doc->0, "message"@) == Some(JsonView::Text(m))
}

/// The report of a task the runner refuses before running anything.
pub open spec fn invalid_input_view(message: Seq<char>, url: Option<Seq<char>>)
    -> (RunnerOutcomeStatus, Option<JsonView>, Option<Seq<char>>) {
    (
        RunnerOutcomeStatus::Failed,
        Some(lightpanda_payload(false, "failed"@, Some("invalid_input"@), url, None, None, None, None, None, message)),
        Some(message),
    )
}

/// The report of a task the runner refuses before running anything.
pub fn invalid_input(message: &str, url: Option<&str>) -> (r: RunnerExecutionResult)
    ensures
        execution_view(r) == invalid_input_view(message@, opt_str_view(url)),
        report_consistent(execution_view(r)),
        r.status == RunnerOutcomeStatus::Failed,
{
    proof {
        lemma_invalid_input_consistent(message@, opt_str_view(url));
    }
    RunnerExecutionResult {
        status: RunnerOutcomeStatus::Failed,
        result_json: Some(result_payload(false, "failed", Some("invalid_input"), url, None, None, None, None, None, message)),
        error_message: Some(message.to_string()),
    }
}

/// A fetch the runner is about to start.
#[derive(Debug)]
pub struct FetchPlan {
    pub url: String,
    pub timeout_seconds: u64,
    pub bin: String,
}

/// The plan for `task`, or the report refusing it: the payload must carry
/// a non-empty url, and that url must be `http://` or `https://`.
pub open spec fn plan_view(payload: JsonView, requested_timeout: Option<i64>, bin: Seq<char>)
    -> Result<(Seq<char>, u64, Seq<char>), (RunnerOutcomeStatus, Option<JsonView>, Option<Seq<char>>)> {
    match payload_url(payload) {
        None => Err(invalid_input_view("lightpanda runner requires a non-empty url in task payload"@, None)),
        Some(url) => if !is_web_url(url) {
            Err(invalid_input_view("lightpanda runner currently only accepts http:// or https:// urls"@, Some(url)))
        } else {
            Ok((url, fetch_timeout(requested_timeout), bin))
        },
    }
}

/// The fetch to run for `task` with the binary `bin`, or the report that
/// refuses the task.
pub fn prepare_fetch(task: &RunnerTask, bin: String) -> (r: Result<FetchPlan, RunnerExecutionResult>)
    ensures
        match r {
            Ok(p) => plan_view(task.payload@, task.timeout_seconds, bin@) == Ok::<_, (RunnerOutcomeStatus, Option<JsonView>, Option<Seq<char>>)>((p.url@, p.timeout_seconds, p.bin@)),
            Err(e) => plan_view(task.payload@, task.timeout_seconds, bin@) == Err::<(Seq<char>, u64, Seq<char>), _>(execution_view(e)),
        },
{
    let url = match extract_url(&task.payload) {
        Some(u) => u,
        None => return Err(invalid_input("lightpanda runner requires a non-empty url in task payload", None)),
    };
    if !looks_like_url(url.as_str()) {
        return Err(invalid_input("lightpanda runner currently only accepts http:// or https:// urls", Some(url.as_str())));
    }
    let timeout_seconds = fetch_timeout_seconds(task.timeout_seconds);
    Ok(FetchPlan { url, timeout_seconds, bin })
}

impl FetchPlan {
    /// The arguments of the fetch command.
    pub fn command_args(&self) -> (args: Vec<String>)
        ensures
            args@.len() == 6,
            args@[0]@ == "fetch"@,
            args@[1]@ == "--log-format"@,
            args@[2]@ == "pretty"@,
            args@[3]@ == "--log-level"@,
            args@[4]@ == "info"@,
            args@[5]@ == self.url@,
    {
        let mut args: Vec<String> = Vec::new();
        args.push("fetch".to_string());
        args.push("--log-format".to_string());
        args.push("pretty".to_string());
        args.push("--log-level".to_string());
        args.push("info".to_string());
        args.push(self.url.clone());
        args
    }
}

/// How a fetch process ended.
#[derive(Debug)]
pub enum FetchOutcome {
    /// The process could not be started; the error's text.
    SpawnFailed(String),
    /// Waiting for the process failed; the error's text.
    WaitFailed(String),
    /// The process did not finish within the timeout.
    TimedOut,
    /// The process exited; its success, exit code and output as text.
    Exited { success: bool, exit_code: Option<i32>, stdout: String, stderr: String },
}

/// A preview, or nothing when it is empty.
pub open spec fn non_empty(s: Seq<char>) -> Option<Seq<char>> {
    if s.len() == 0 { None } else { Some(s) }
}

/// The report of a fetch of `url` with `timeout` seconds by `bin` that ended
/// with `outcome`.
pub open spec fn fetch_report(url: Seq<char>, timeout: u64, bin: Seq<char>, outcome: FetchOutcome)
    -> (RunnerOutcomeStatus, Option<JsonView>, Option<Seq<char>>) {
    match outcome {
        FetchOutcome::SpawnFailed(err) => {
            let message = "failed to spawn lightpanda binary: "@ + err@;
            (RunnerOutcomeStatus::Failed,
                Some(lightpanda_payload(false, "failed"@, Some("spawn_failed"@), Some(url), Some(timeout), Some(bin), None, None, None, message)),
                Some(message))
        },
        FetchOutcome::WaitFailed(err) => {
            let message = "lightpanda process wait failed: "@ + err@;
            (RunnerOutcomeStatus::Failed,
                Some(lightpanda_payload(false, "failed"@, Some("process_wait_failed"@), Some(url), Some(timeout), Some(bin), None, None, None, message)),
                Some(message))
        },
        FetchOutcome::TimedOut => {
            let message = "lightpanda fetch timed out"@;
            (RunnerOutcomeStatus::TimedOut,
                Some(lightpanda_payload(false, "timeout"@, Some("timeout"@), Some(url), Some(timeout), Some(bin), None, None, None, message)),
                Some(message))
        },
        FetchOutcome::Exited { success, exit_code, stdout, stderr } => {
            let out = output_preview(stdout@, 4000);
            let err = output_preview(stderr@, 2000);
            if success {
                (RunnerOutcomeStatus::Succeeded,
                    Some(lightpanda_payload(true, "succeeded"@, None, Some(url), Some(timeout), Some(bin), exit_code,
                        Some(out), non_empty(err), "lightpanda fetch completed successfully"@)),
                    None)
            } else {
                let message = "lightpanda fetch exited with non-zero status"@;
                (RunnerOutcomeStatus::Failed,
                    Some(lightpanda_payload(false, "failed"@, Some("non_zero_exit"@), Some(url), Some(timeout), Some(bin), exit_code,
                        non_empty(out), non_empty(err), message)),
                    Some(message))
            }
        },
    }
}

/// Every report of a fetch agrees with itself: its document says `ok`
/// exactly when the run succeeded, names the run status, carries an error
/// kind exactly when it failed or timed out (`timeout` for a timeout), and
/// records the fetched url, timeout and binary; a timeout is reported as a
/// timeout, a clean exit with success as a success, every other outcome as
/// a failure.
pub proof fn lemma_fetch_report_consistent(url: Seq<char>, timeout: u64, bin: Seq<char>, outcome: FetchOutcome)
    ensures
        report_consistent(fetch_report(url, timeout, bin, outcome)),
        fetch_report(url, timeout, bin, outcome).0 == match outcome {
            FetchOutcome::TimedOut => RunnerOutcomeStatus::TimedOut,
            FetchOutcome::Exited { success, .. } => if success { RunnerOutcomeStatus::Succeeded } else { RunnerOutcomeStatus::Failed },
            _ => RunnerOutcomeStatus::Failed,
        },
        ({
            let d = fetch_report(url, timeout, bin, outcome).1->0;
            &&& field(d, "url"@) == Some(JsonView::Text(url))
            &&& field(d, "timeout_seconds"@) == Some(opt_unsigned(Some(timeout)))
            &&& field(d, "bin"@) == Some(JsonView::Text(bin))
        }),
{
    reveal_strlit("timeout");
    reveal_strlit("spawn_failed");
    reveal_strlit("process_wait_failed");
    reveal_strlit("non_zero_exit");
    match outcome {
        FetchOutcome::SpawnFailed(err) => {
            let message = "failed to spawn lightpanda binary: "@ + err@;
            lemma_payload_fields(false, "failed"@, Some("spawn_failed"@), Some(url), Some(timeout), Some(bin), None, None, None, message);
        },
        FetchOutcome::WaitFailed(err) => {
            let message = "lightpanda process wait failed: "@ + err@;
            lemma_payload_fields(false, "failed"@, Some("process_wait_failed"@), Some(url), Some(timeout), Some(bin), None, None, None, message);
        },
        FetchOutcome::TimedOut => {
            lemma_payload_fields(false, "timeout"@, Some("timeout"@), Some(url), Some(timeout), Some(bin), None, None, None, "lightpanda fetch timed out"@);
        },
        FetchOutcome::Exited { success, exit_code, stdout, stderr } => {
            let out = output_preview(stdout@, 4000);
            let err = output_preview(stderr@, 2000);
            if success {
                lemma_payload_fields(true, "succeeded"@, None, Some(url), Some(timeout), Some(bin), exit_code,
                    Some(out), non_empty(err), "lightpanda fetch completed successfully"@);
            } else {
                lemma_payload_fields(false, "failed"@, Some("non_zero_exit"@), Some(url), Some(timeout), Some(bin), exit_code,
                    non_empty(out), non_empty(err), "lightpanda fetch exited with non-zero status"@);
            }
        },
    }
}

/// A refused task's report agrees with itself: a failure whose document
/// says `ok` false, status `failed`, error kind `invalid_input`, and whose
/// message is the refusal.
pub proof fn lemma_invalid_input_consistent(message: Seq<char>, url: Option<Seq<char>>)
    ensures
        report_consistent(invalid_input_view(message, url)),
        invalid_input_view(message, url).0 == RunnerOutcomeStatus::Failed,
        field(invalid_input_view(message, url).1->0, "error_kind"@) == Some(JsonView::Text("invalid_input"@)),
        invalid_input_view(message, url).2 == Some(message),
{
    reveal_strlit("invalid_input");
    lemma_payload_fields(false, "failed"@, Some("invalid_input"@), url, None, None, None, None, None, message);
}

/// A preview, or nothing when it is empty.
fn non_empty_text(s: String) -> (r: Option<String>)
    ensures
        opt_string_view(r) == non_empty(s@),
{
    if s.unicode_len() == 0 { None } else { Some(s) }
}

/// The report of the fetch `plan` that ended with `outcome`.
pub fn fetch_result(plan: &FetchPlan, outcome: FetchOutcome) -> (r: RunnerExecutionResult)
    ensures
        execution_view(r) == fetch_report(plan.url@, plan.timeout_seconds, plan.bin@, outcome),
        report_consistent(execution_view(r)),
        (r.status == RunnerOutcomeStatus::TimedOut) == (outcome is TimedOut),
{
    proof {
        lemma_fetch_report_consistent(plan.url@, plan.timeout_seconds, plan.bin@, outcome);
    }
    let url = plan.url.as_str();
    let bin = plan.bin.as_str();
    let t = plan.timeout_seconds;
    match outcome {
        FetchOutcome::SpawnFailed(err) => {
            let message = "failed to spawn lightpanda binary: ".to_string().concat(err.as_str());
            RunnerExecutionResult {
                status: RunnerOutcomeStatus::Failed,
                result_json: Some(result_payload(false, "failed", Some("spawn_failed"), Some(url), Some(t), Some(bin), None, None, None, message.as_str())),
                error_message: Some(message),
            }
        },
        FetchOutcome::WaitFailed(err) => {
            let message = "lightpanda process wait failed: ".to_string().concat(err.as_str());
            RunnerExecutionResult {
                status: RunnerOutcomeStatus::Failed,
                result_json: Some(result_payload(false, "failed", Some("process_wait_failed"), Some(url), Some(t), Some(bin), None, None, None, message.as_str())),
                error_message: Some(message),
            }
        },
        FetchOutcome::TimedOut => {
            let message = "lightpanda fetch timed out";
            RunnerExecutionResult {
                status: RunnerOutcomeStatus::TimedOut,
                result_json: Some(result_payload(false, "timeout", Some("timeout"), Some(url), Some(t), Some(bin), None, None, None, message)),
                error_message: Some(message.to_string()),
            }
        },
        FetchOutcome::Exited { success, exit_code, stdout, stderr } => {
            let stdout_preview = truncate_output(stdout.as_str(), 4000);
            let stderr_preview = truncate_output(stderr.as_str(), 2000);
            if success {
                let message = "lightpanda fetch completed successfully";
                RunnerExecutionResult {
                    status: RunnerOutcomeStatus::Succeeded,
                    result_json: Some(result_payload(true, "succeeded", None, Some(url), Some(t), Some(bin), exit_code,
                        Some(stdout_preview), non_empty_text(stderr_preview), message)),
                    error_message: None,
                }
            } else {
                let message = "lightpanda fetch exited with non-zero status";
                RunnerExecutionResult {
                    status: RunnerOutcomeStatus::Failed,
                    result_json: Some(result_payload(false, "failed", Some("non_zero_exit"), Some(url), Some(t), Some(bin), exit_code,
                        non_empty_text(stdout_preview), non_empty_text(stderr_preview), message)),
                    error_message: Some(message.to_string()),
                }
            }
        },
    }
}

// ---------------------------------------------------------------------------
// The runner.

/// The Lightpanda runner and the processes it has running.
#[derive(Debug)]
pub struct LightpandaRunner {
    running_tasks: RunningTasks,
}

impl Default for LightpandaRunner {
    fn default() -> (r: LightpandaRunner)
        ensures
            r.running() == Map::<Seq<char>, u32>::empty(),
    {
        LightpandaRunner { running_tasks: RunningTasks::new() }
    }
}

/// The answer to a cancel request for `task_id` when no process of it is
/// known.
pub open spec fn no_process_message(task_id: Seq<char>) -> Seq<char> {
    "lightpanda runner has no registered running process for task_id="@ + task_id
}

/// The answer to a cancel request for `task_id` whose process `pid` was sent
/// the terminate signal.
pub open spec fn terminated_message(task_id: Seq<char>, pid: u32) -> Seq<char> {
    "lightpanda runner sent SIGTERM to running process for task_id="@ + task_id + ", pid="@ + decimal(pid as nat)
}

/// The answer to a cancel request for `task_id` whose process `pid` could
/// not be terminated, with the error's text.
pub open spec fn terminate_failed_message(task_id: Seq<char>, pid: u32, err: Seq<char>) -> Seq<char> {
    "lightpanda runner failed to terminate process for task_id="@ + task_id + ", pid="@ + decimal(pid as nat) + ": "@ + err
}

impl LightpandaRunner {
    /// The process id of each running task.
    pub closed spec fn running(self) -> Map<Seq<char>, u32> {
        self.running_tasks.view_map()
    }

    /// The runner's name.
    pub fn name(&self) -> (n: &'static str)
        ensures
            n@ == "lightpanda"@,
    {
        "lightpanda"
    }

    /// What the runner supports: timeouts and cancelling running tasks.
    pub fn capabilities(&self) -> (c: RunnerCapabilities)
        ensures
            c.supports_timeout,
            c.supports_cancel_running,
            !c.supports_artifacts,
    {
        RunnerCapabilities { supports_timeout: true, supports_cancel_running: true, supports_artifacts: false }
    }

    /// Records the process of `task_id`, when the process has an id.
    pub fn register_child(&mut self, task_id: &str, pid: Option<u32>)
        ensures
            final(self).running() == match pid {
                Some(p) => old(self).running().insert(task_id@, p),
                None => old(self).running(),
            },
    {
        if let Some(p) = pid {
            self.running_tasks.insert(task_id, p);
        }
    }

    /// Forgets the process of `task_id`.
    pub fn unregister_child(&mut self, task_id: &str)
        ensures
            final(self).running() == old(self).running().remove(task_id@),
    {
        self.running_tasks.remove(task_id);
    }

    /// The report of the fetch `plan` of `task_id` that ended with
    /// `outcome`; once a started process has ended, it is forgotten.
    pub fn complete_fetch(&mut self, task_id: &str, plan: &FetchPlan, outcome: FetchOutcome) -> (r: RunnerExecutionResult)
        ensures
            execution_view(r) == fetch_report(plan.url@, plan.timeout_seconds, plan.bin@, outcome),
            report_consistent(execution_view(r)),
            (r.status == RunnerOutcomeStatus::TimedOut) == (outcome is TimedOut),
            final(self).running() == if outcome is SpawnFailed {
                old(self).running()
            } else {
                old(self).running().remove(task_id@)
            },
    {
        let started = match &outcome {
            FetchOutcome::SpawnFailed(_) => false,
            _ => true,
        };
        if started {
            self.unregister_child(task_id);
        }
        fetch_result(plan, outcome)
    }

    /// The process to terminate when `task_id` is cancelled, if one runs.
    pub fn cancel_target(&self, task_id: &str) -> (pid: Option<u32>)
        ensures
            pid == (if self.running().contains_key(task_id@) { Some(self.running()[task_id@]) } else { None::<u32> }),
    {
        self.running_tasks.get(task_id)
    }

    /// The answer to cancelling `task_id`, whose process is `pid` when one
    /// runs, after the attempt to terminate it ended with `terminated`. A
    /// terminated process is forgotten.
    pub fn cancel_running(&mut self, task_id: &str, target: Option<(u32, Result<(), String>)>) -> (r: RunnerCancelResult)
        ensures
            match target {
                None => !r.accepted && r.message@ == no_process_message(task_id@)
                    && final(self).running() == old(self).running(),
                Some((pid, Ok(()))) => r.accepted && r.message@ == terminated_message(task_id@, pid)
                    && final(self).running() == old(self).running().remove(task_id@),
                Some((pid, Err(e))) => !r.accepted && r.message@ == terminate_failed_message(task_id@, pid, e@)
                    && final(self).running() == old(self).running(),
            },
    {
        match target {
            None => RunnerCancelResult {
                accepted: false,
                message: "lightpanda runner has no registered running process for task_id=".to_string().concat(task_id),
            },
            Some((pid, Ok(()))) => {
                self.unregister_child(task_id);
                let message = "lightpanda runner sent SIGTERM to running process for task_id=".to_string()
                    .concat(task_id).concat(", pid=").concat(u64_text(pid as u64).as_str());
                RunnerCancelResult { accepted: true, message }
            },
            Some((pid, Err(e))) => {
                let message = "lightpanda runner failed to terminate process for task_id=".to_string()
                    .concat(task_id).concat(", pid=").concat(u64_text(pid as u64).as_str())
                    .concat(": ").concat(e.as_str());
                RunnerCancelResult { accepted: false, message }
            },
        }
    }
}

/// A planned fetch always opens a non-empty, trimmed `http://` or
/// `https://` url, within a timeout of 1 to 120 seconds.
pub proof fn lemma_planned_fetch_is_web(payload: JsonView, requested_timeout: Option<i64>, bin: Seq<char>)
    requires
        plan_view(payload, requested_timeout, bin) is Ok,
    ensures
        ({
            let (url, timeout, b) = plan_view(payload, requested_timeout, bin)->Ok_0;
            &&& is_web_url(url)
            &&& url.len() > 0
            &&& trimmed(url) == url
            &&& 1 <= timeout <= 120
            &&& b == bin
        }),
{
    let t = match field(payload, "url"@) { Some(JsonView::Text(t)) => t, _ => Seq::empty() };
    lemma_trim_idempotent(t);
}

/// The process table across the runner's operations: once a task's
/// process is registered, cancelling the task targets that process; once
/// its run completes (or a cancel terminates it) the task has none; other
/// tasks' processes are left as they were.
pub proof fn lemma_registered_process_is_cancel_target(
    before: LightpandaRunner,
    registered: LightpandaRunner,
    finished: LightpandaRunner,
    task_id: Seq<char>,
    other: Seq<char>,
    pid: u32,
)
    requires
        registered.running() == before.running().insert(task_id, pid),
        finished.running() == registered.running().remove(task_id),
        task_id != other,
    ensures
        registered.running().contains_key(task_id),
        registered.running()[task_id] == pid,
        !finished.running().contains_key(task_id),
        finished.running().contains_key(other) == before.running().contains_key(other),
        before.running().contains_key(other) ==> finished.running()[other] == before.running()[other],
{
}

/// The arguments of the command that sends the terminate signal to `pid`.
pub fn kill_args(pid: u32) -> (args: Vec<String>)
    ensures
        args@.len() == 2,
        args@[0]@ == "-TERM"@,
        args@[1]@ == decimal(pid as nat),
{
    let mut args: Vec<String> = Vec::new();
    args.push("-TERM".to_string());
    args.push(u64_text(pid as u64));
    args
}

/// The text `{:?}` gives for an optional exit code.
pub open spec fn debug_exit_code(code: Option<i32>) -> Seq<char> {
    match code {
        Some(c) => "Some("@ + signed_decimal(c as int) + ")"@,
        None => "None"@,
    }
}

/// The outcome of terminating a process: the kill command could not start
/// (its error's text), or it exited with a success flag and an exit code.
pub open spec fn terminate_outcome(status: Result<(bool, Option<i32>), Seq<char>>) -> Result<(), Seq<char>> {
    match status {
        Err(e) => Err("failed to spawn kill command: "@ + e),
        Ok((true, _)) => Ok(()),
        Ok((false, code)) => Err("kill -TERM exited with status "@ + debug_exit_code(code)),
    }
}

/// Whether the terminate signal was delivered, from how the kill command ran.
pub fn terminate_result(status: Result<(bool, Option<i32>), String>) -> (r: Result<(), String>)
    ensures
        match (r, status) {
            (Ok(()), Ok(st)) => terminate_outcome(Ok(st)) == Ok::<(), Seq<char>>(()),
            (Err(m), Ok(st)) => terminate_outcome(Ok(st)) == Err::<(), Seq<char>>(m@),
            (Err(m), Err(e)) => terminate_outcome(Err(e@)) == Err::<(), Seq<char>>(m@),
            (Ok(()), Err(_)) => false,
        },
{
    match status {
        Err(e) => Err("failed to spawn kill command: ".to_string().concat(e.as_str())),
        Ok((true, _)) => Ok(()),
        Ok((false, code)) => {
            let shown = match code {
                Some(c) => "Some(".to_string().concat(i64_text(c as i64).as_str()).concat(")"),
                None => "None".to_string(),
            };
            Err("kill -TERM exited with status ".to_string().concat(shown.as_str()))
        },
    }
}

} // verus!
