//! Task runners: the runner kinds and their settings, what a runner can do,
//! and the values that pass between the dispatcher and a runner.

pub mod browser_runner;
pub mod fake;
pub mod fake_runner;
pub mod lightpanda;

use vstd::prelude::*;
use crate::json::{JsonValue, JsonView, opt_str_view};
use crate::text::{decimal, digit_char};

verus! {

/// Which runner executes tasks.
#[derive(Debug, Clone, Copy, PartialEq, Eq, Structural)]
pub enum RunnerKind {
    Fake,
    Lightpanda,
}

/// ASCII letters turned to lower case; other characters kept.
pub open spec fn ascii_lower_char(c: char) -> char {
    if 'A' <= c && c <= 'Z' { ((c as u32) + 32) as char } else { c }
}

/// `to_ascii_lowercase` of a text.
pub open spec fn ascii_lower(s: Seq<char>) -> Seq<char> {
    s.map_values(|c: char| ascii_lower_char(c))
}

/// The runner kind a setting selects: `lightpanda` in any ASCII case, else
/// the fake runner; no setting selects the fake runner.
pub open spec fn runner_kind_for(setting: Option<Seq<char>>) -> RunnerKind {
    match setting {
        Some(v) => if ascii_lower(v) == "lightpanda"@ { RunnerKind::Lightpanda } else { RunnerKind::Fake },
        None => RunnerKind::Fake,
    }
}


/// `c` turned to ASCII lower case.
pub fn ascii_lower_of(c: char) -> (r: char)
    ensures
        r == ascii_lower_char(c),
{
    if 'A' <= c && c <= 'Z' {
        let u: u8 = ((c as u32) + 32) as u8;
        u as char
    } else {
        c
    }
}

/// Whether `s` in ASCII lower case is `target`.
pub fn lower_equals(s: &str, target: &str) -> (r: bool)
    ensures
        r == (ascii_lower(s@) == target@),
{
    let n = s.unicode_len();
    let m = target.unicode_len();
    if n != m {
        assert(ascii_lower(s@).len() == n);
        return false;
    }
    let mut i: usize = 0;
    while i < n
        invariant
            n == s@.len(),
            m == target@.len(),
            n == m,
            i <= n,
            forall|j: int| 0 <= j < i ==> ascii_lower_char(s@[j]) == target@[j],
        decreases n - i,
    {
        if ascii_lower_of(s.get_char(i)) != target.get_char(i) {
            assert(ascii_lower(s@)[i as int] != target@[i as int]);
            return false;
        }
        i = i + 1;
    }
    assert(ascii_lower(s@) =~= target@);
    true
}

impl RunnerKind {
    /// The runner kind selected by the runner setting, when one is given.
    pub fn from_setting(setting: Option<&str>) -> (kind: RunnerKind)
        ensures
            kind == runner_kind_for(opt_str_view(setting)),
    {
        match setting {
            Some(v) => if lower_equals(v, "lightpanda") { RunnerKind::Lightpanda } else { RunnerKind::Fake },
            None => RunnerKind::Fake,
        }
    }
}

/// Whether `c` is an ASCII decimal digit.
pub open spec fn is_digit(c: char) -> bool {
    '0' <= c && c <= '9'
}

/// The value of a decimal digit.
pub open spec fn digit_value(c: char) -> int {
    (c as u32) - ('0' as u32)
}

/// The value of a string of decimal digits.
pub open spec fn digits_value(s: Seq<char>) -> int
    decreases s.len(),
{
    if s.len() == 0 { 0 } else { digits_value(s.drop_last()) * 10 + digit_value(s.last()) }
}

/// The digits of an unsigned number text: the text after an optional `+`.
pub open spec fn unsigned_body(s: Seq<char>) -> Seq<char> {
    if s.len() > 0 && s[0] == '+' { s.drop_first() } else { s }
}

/// Whether every character of `s` is a decimal digit.
pub open spec fn all_digits(s: Seq<char>) -> bool {
    forall|i: int| 0 <= i < s.len() ==> is_digit(#[trigger] s[i])
}

/// What `usize::from_str` gives: an optional `+`, then one or more decimal
/// digits whose value fits in `usize`.
pub open spec fn parse_usize(s: Seq<char>) -> Option<int> {
    let body = unsigned_body(s);
    if body.len() > 0 && all_digits(body) && digits_value(body) <= usize::MAX {
        Some(digits_value(body))
    } else {
        None
    }
}

proof fn lemma_digits_value_nonneg(s: Seq<char>)
    requires
        forall|i: int| 0 <= i < s.len() ==> is_digit(#[trigger] s[i]),
    ensures
        digits_value(s) >= 0,
    decreases s.len(),
{
    if s.len() > 0 {
        lemma_digits_value_nonneg(s.drop_last());
    }
}

/// A longer digit string is worth at least as much as its prefix.
proof fn lemma_digits_value_prefix(s: Seq<char>, k: int)
    requires
        0 <= k <= s.len(),
        forall|i: int| 0 <= i < s.len() ==> is_digit(#[trigger] s[i]),
    ensures
        digits_value(s.take(k)) <= digits_value(s),
    decreases s.len() - k,
{
    if k < s.len() {
        let t = s.take(k + 1);
        assert(t.drop_last() =~= s.take(k));
        assert forall|i: int| 0 <= i < s.take(k).len() implies is_digit(#[trigger] s.take(k)[i]) by {
            assert(s.take(k)[i] == s[i]);
        }
        lemma_digits_value_nonneg(s.take(k));
        assert(digits_value(t) == digits_value(s.take(k)) * 10 + digit_value(s[k]));
        lemma_digits_value_prefix(s, k + 1);
    } else {
        assert(s.take(k) =~= s);
    }
}

/// The value of `s` as `usize::from_str` reads it.
pub fn parse_usize_text(s: &str) -> (r: Option<usize>)
    ensures
        parse_usize(s@) == match r {
            Some(k) => Some(k as int),
            None => None::<int>,
        },
{
    let n = s.unicode_len();
    let mut start: usize = 0;
    if n > 0 && s.get_char(0) == '+' {
        start = 1;
    }
    let ghost body = unsigned_body(s@);
    assert(body =~= s@.subrange(start as int, n as int));
    if start >= n {
        return None;
    }
    let mut acc: usize = 0;
    let mut i: usize = start;
    while i < n
        invariant
            n == s@.len(),
            start <= i <= n,
            start < n,
            body == s@.subrange(start as int, n as int),
            body == unsigned_body(s@),
            forall|j: int| 0 <= j < i - start ==> is_digit(#[trigger] body[j]),
            acc == digits_value(body.take(i - start)),
        decreases n - i,
    {
        let c = s.get_char(i);
        assert(c == body[i - start]);
        if !('0' <= c && c <= '9') {
            assert(!is_digit(body[i - start]));
            assert(0 <= i - start < body.len());
            assert(!all_digits(body));
            return None;
        }
        let d: usize = ((c as u32) - ('0' as u32)) as usize;
        assert(body.take(i - start + 1).drop_last() =~= body.take(i - start));
        if acc > (usize::MAX - d) / 10 {
            proof {
                assert(acc * 10 + d > usize::MAX) by (nonlinear_arith)
                    requires acc > (usize::MAX - d) / 10, d <= 9;
                assert(digits_value(body.take(i - start + 1)) == acc * 10 + d);
                assert(is_digit(body[i - start]));
                if all_digits(body) {
                    lemma_digits_value_prefix(body, i - start + 1);
                    assert(digits_value(body) > usize::MAX);
                }
                assert(parse_usize(s@) is None);
            }
            return None;
        }
        assert(acc * 10 + d <= usize::MAX) by (nonlinear_arith)
            requires acc <= (usize::MAX - d) / 10, d <= 9;
        acc = acc * 10 + d;
        i = i + 1;
    }
    assert(body.take(n - start) =~= body);
    Some(acc)
}

/// The worker count a concurrency setting gives: a positive number that
/// `usize::from_str` reads, or 1.
pub open spec fn concurrency_for(setting: Option<Seq<char>>) -> int {
    match setting {
        Some(v) => match parse_usize(v) {
            Some(k) => if k > 0 { k } else { 1 },
            None => 1,
        },
        None => 1,
    }
}

/// The worker count selected by the concurrency setting, when one is given.
pub fn runner_concurrency_from_setting(setting: Option<&str>) -> (count: usize)
    ensures
        count == concurrency_for(opt_str_view(setting)),
        count >= 1,
        forall|k: int| #![auto] setting is Some && parse_usize(setting->0@) == Some(k) && k > 0 ==> count == k,
        setting is Some && (parse_usize(setting->0@) is None || parse_usize(setting->0@) == Some(0int)) ==> count == 1,
        setting is None ==> count == 1,
{
    match setting {
        Some(v) => match parse_usize_text(v) {
            Some(k) => if k > 0 { k } else { 1 },
            None => 1,
        },
        None => 1,
    }
}

proof fn lemma_decimal_digits(n: nat)
    ensures
        decimal(n).len() > 0,
        all_digits(decimal(n)),
        digits_value(decimal(n)) == n,
    decreases n,
{
    if n < 10 {
        assert(decimal(n).drop_last() =~= Seq::<char>::empty());
        assert(digit_value(digit_char(n)) == n);
        assert(decimal(n).last() == digit_char(n));
        assert(digits_value(decimal(n)) == digits_value(decimal(n).drop_last()) * 10 + digit_value(digit_char(n)));
        assert(digits_value(Seq::<char>::empty()) == 0);
        assert(digits_value(decimal(n)) == n);
    } else {
        lemma_decimal_digits(n / 10);
        let d = digit_char(n % 10);
        assert(digit_value(d) == n % 10);
        assert(decimal(n).drop_last() =~= decimal(n / 10));
        assert(decimal(n).last() == d);
        assert(digits_value(decimal(n)) == digits_value(decimal(n / 10)) * 10 + digit_value(d));
        assert((n / 10) * 10 + n % 10 == n);
        assert(digits_value(decimal(n)) == n);
        assert forall|i: int| 0 <= i < decimal(n).len() implies is_digit(#[trigger] decimal(n)[i]) by {
            if i < decimal(n).len() - 1 {
                assert(decimal(n)[i] == decimal(n / 10)[i]);
            }
        }
    }
}

/// The decimal text of every count that fits in `usize` reads back as that
/// count, and a positive count so given is the worker count; more
/// generally, any text that reads as a positive number gives that many
/// workers.
pub proof fn lemma_concurrency_reads_count(v: Seq<char>, k: nat)
    requires
        k <= usize::MAX,
    ensures
        parse_usize(decimal(k)) == Some(k as int),
        k > 0 ==> concurrency_for(Some(decimal(k))) == k,
        parse_usize(v) == Some(k as int) && k > 0 ==> concurrency_for(Some(v)) == k,
        parse_usize(v) == Some(0int) ==> concurrency_for(Some(v)) == 1,
{
    lemma_decimal_digits(k);
    assert(is_digit(decimal(k)[0]));
}

/// The number of workers actually started for a requested count: at least one.
pub fn effective_worker_count(worker_count: usize) -> (n: usize)
    ensures
        n == if worker_count >= 1 { worker_count } else { 1 },
{
    if worker_count >= 1 { worker_count } else { 1 }
}

/// What a runner supports.
#[derive(Debug, Clone, Copy, PartialEq, Eq, Structural)]
pub struct RunnerCapabilities {
    pub supports_timeout: bool,
    pub supports_cancel_running: bool,
    pub supports_artifacts: bool,
}

impl RunnerCapabilities {
    /// What a runner supports unless it says otherwise: timeouts only.
    pub fn baseline() -> (c: RunnerCapabilities)
        ensures
            c.supports_timeout,
            !c.supports_cancel_running,
            !c.supports_artifacts,
    {
        RunnerCapabilities { supports_timeout: true, supports_cancel_running: false, supports_artifacts: false }
    }
}

/// The answer to a request to cancel a running task.
#[derive(Debug)]
pub struct RunnerCancelResult {
    pub accepted: bool,
    pub message: String,
}

/// The refusal a runner without running cancel gives.
pub fn unsupported_cancel(runner_name: &str) -> (r: RunnerCancelResult)
    ensures
        !r.accepted,
        r.message@ == "runner "@ + runner_name@ + " does not support running cancel"@,
{
    let message = "runner ".to_string().concat(runner_name).concat(" does not support running cancel");
    RunnerCancelResult { accepted: false, message }
}

/// How a run ended.
#[derive(Debug, Clone, Copy, PartialEq, Eq, Structural)]
pub enum RunnerOutcomeStatus {
    Succeeded,
    Failed,
    TimedOut,
}

/// A task handed to a runner.
#[derive(Debug)]
pub struct RunnerTask {
    pub task_id: String,
    pub kind: String,
    pub payload: JsonValue,
    pub timeout_seconds: Option<i64>,
    pub attempt: u32,
}

/// The model of a run report: its status, its JSON result and its error.
pub open spec fn execution_view(r: RunnerExecutionResult) -> (RunnerOutcomeStatus, Option<JsonView>, Option<Seq<char>>) {
    (
        r.status,
        match r.result_json { Some(v) => Some(v@), None => None },
        match r.error_message { Some(m) => Some(m@), None => None },
    )
}

/// What a runner reports of a run.
#[derive(Debug)]
pub struct RunnerExecutionResult {
    pub status: RunnerOutcomeStatus,
    pub result_json: Option<JsonValue>,
    pub error_message: Option<String>,
}

} // verus!
