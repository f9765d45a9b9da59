//! The task model: statuses and their stored text, the step language, task
//! creation requests, task and log records, and the mapping between records
//! and the rows in which storage keeps them.

use vstd::prelude::*;
use crate::json::{JsonValue, JsonView, JsonMember, member, object, array, text, unsigned_number,
    opt_text_value, opt_text, opt_string_view, members_view, items_view};
use crate::text::{is_blank, is_blank_text, same_text, decimal};
use crate::json::{opt_json_view, field};

verus! {

/// Errors of the service.
#[derive(Debug)]
pub enum AppError {
    InvalidRequest(String),
    NotFound,
    Database(String),
    Runner(String),
    Internal(String),
}

/// The text under which each error is reported.
pub open spec fn error_text(e: AppError) -> Seq<char> {
    match e {
        AppError::InvalidRequest(m) => "invalid request: "@ + m@,
        AppError::NotFound => "not found"@,
        AppError::Database(m) => "database error: "@ + m@,
        AppError::Runner(m) => "runner error: "@ + m@,
        AppError::Internal(m) => "internal error: "@ + m@,
    }
}

impl AppError {
    /// The text under which this error is reported.
    pub fn message(&self) -> (m: String)
        ensures
            m@ == error_text(*self),
    {
        match self {
            AppError::InvalidRequest(m) => "invalid request: ".to_string().concat(m.as_str()),
            AppError::NotFound => "not found".to_string(),
            AppError::Database(m) => "database error: ".to_string().concat(m.as_str()),
            AppError::Runner(m) => "runner error: ".to_string().concat(m.as_str()),
            AppError::Internal(m) => "internal error: ".to_string().concat(m.as_str()),
        }
    }
}

/// The lifecycle status of a task.
#[derive(Debug, Clone, Copy, PartialEq, Eq, Structural)]
pub enum TaskStatus {
    Queued,
    Running,
    Success,
    Failed,
    Cancelled,
    Timeout,
}

/// The text under which storage keeps each status.
pub open spec fn status_text(s: TaskStatus) -> Seq<char> {
    match s {
        TaskStatus::Queued => "queued"@,
        TaskStatus::Running => "running"@,
        TaskStatus::Success => "success"@,
        TaskStatus::Failed => "failed"@,
        TaskStatus::Cancelled => "cancelled"@,
        TaskStatus::Timeout => "timeout"@,
    }
}

/// The status a stored text stands for; unknown text reads as failed.
pub open spec fn status_from_text(t: Seq<char>) -> TaskStatus {
    if t == "queued"@ {
        TaskStatus::Queued
    } else if t == "running"@ {
        TaskStatus::Running
    } else if t == "success"@ {
        TaskStatus::Success
    } else if t == "failed"@ {
        TaskStatus::Failed
    } else if t == "cancelled"@ {
        TaskStatus::Cancelled
    } else if t == "timeout"@ {
        TaskStatus::Timeout
    } else {
        TaskStatus::Failed
    }
}

impl TaskStatus {
    /// The text under which storage keeps this status.
    pub fn as_str(&self) -> (t: &'static str)
        ensures
            t@ == status_text(*self),
            *self == TaskStatus::Queued ==> t@ == "queued"@,
            *self == TaskStatus::Running ==> t@ == "running"@,
            *self == TaskStatus::Success ==> t@ == "success"@,
            *self == TaskStatus::Failed ==> t@ == "failed"@,
            *self == TaskStatus::Cancelled ==> t@ == "cancelled"@,
            *self == TaskStatus::Timeout ==> t@ == "timeout"@,
    {
        match self {
            TaskStatus::Queued => "queued",
            TaskStatus::Running => "running",
            TaskStatus::Success => "success",
            TaskStatus::Failed => "failed",
            TaskStatus::Cancelled => "cancelled",
            TaskStatus::Timeout => "timeout",
        }
    }
}

/// The status that the stored text `s` stands for.
pub fn parse_status(s: &str) -> (status: TaskStatus)
    ensures
        status == status_from_text(s@),
        s@ == "queued"@ ==> status == TaskStatus::Queued,
        s@ == "running"@ ==> status == TaskStatus::Running,
        s@ == "success"@ ==> status == TaskStatus::Success,
        s@ == "failed"@ ==> status == TaskStatus::Failed,
        s@ == "cancelled"@ ==> status == TaskStatus::Cancelled,
        s@ == "timeout"@ ==> status == TaskStatus::Timeout,
        s@ != "queued"@ && s@ != "running"@ && s@ != "success"@ && s@ != "cancelled"@
            && s@ != "timeout"@ ==> status == TaskStatus::Failed,
{
    proof {
        lemma_status_names(s@);
    }
    if same_text(s, "queued") {
        TaskStatus::Queued
    } else if same_text(s, "running") {
        TaskStatus::Running
    } else if same_text(s, "success") {
        TaskStatus::Success
    } else if same_text(s, "failed") {
        TaskStatus::Failed
    } else if same_text(s, "cancelled") {
        TaskStatus::Cancelled
    } else if same_text(s, "timeout") {
        TaskStatus::Timeout
    } else {
        TaskStatus::Failed
    }
}

/// Each status is stored under its own name, and each name reads back as
/// that status: `queued`, `running`, `success`, `failed`, `cancelled`,
/// `timeout`; any other text reads as failed.
pub proof fn lemma_status_names(t: Seq<char>)
    ensures
        status_text(TaskStatus::Queued) == "queued"@,
        status_text(TaskStatus::Running) == "running"@,
        status_text(TaskStatus::Success) == "success"@,
        status_text(TaskStatus::Failed) == "failed"@,
        status_text(TaskStatus::Cancelled) == "cancelled"@,
        status_text(TaskStatus::Timeout) == "timeout"@,
        status_from_text("queued"@) == TaskStatus::Queued,
        status_from_text("running"@) == TaskStatus::Running,
        status_from_text("success"@) == TaskStatus::Success,
        status_from_text("failed"@) == TaskStatus::Failed,
        status_from_text("cancelled"@) == TaskStatus::Cancelled,
        status_from_text("timeout"@) == TaskStatus::Timeout,
        t != "queued"@ && t != "running"@ && t != "success"@ && t != "cancelled"@ && t != "timeout"@
            ==> status_from_text(t) == TaskStatus::Failed,
{
    lemma_status_roundtrip(TaskStatus::Queued);
    lemma_status_roundtrip(TaskStatus::Running);
    lemma_status_roundtrip(TaskStatus::Success);
    lemma_status_roundtrip(TaskStatus::Failed);
    lemma_status_roundtrip(TaskStatus::Cancelled);
    lemma_status_roundtrip(TaskStatus::Timeout);
}

/// Reading back the text of a status gives the status.
pub proof fn lemma_status_roundtrip(s: TaskStatus)
    ensures
        status_from_text(status_text(s)) == s,
{
    reveal_strlit("queued");
    reveal_strlit("running");
    reveal_strlit("success");
    reveal_strlit("failed");
    reveal_strlit("cancelled");
    reveal_strlit("timeout");
    let q = "queued"@;
    let r = "running"@;
    let su = "success"@;
    let f = "failed"@;
    let c = "cancelled"@;
    let t = "timeout"@;
    assert(q[0] == 'q' && r[0] == 'r' && su[0] == 's' && f[0] == 'f' && c[0] == 'c' && t[0] == 't');
}

/// One step of the browser automation language.
#[derive(Debug)]
pub enum Step {
    Goto { url: String },
    Wait { ms: u64 },
    Screenshot { name: String },
    Click { selector: String },
    Type { selector: String, text: String },
    ExtractText { selector: String, save_as: String },
    Evaluate { script: String, save_as: Option<String> },
}

/// The JSON form of a step: an object tagged by its `action`, followed by
/// the step's fields in order.
pub open spec fn step_json(step: Step) -> JsonView {
    match step {
        Step::Goto { url } => JsonView::Object(seq![
            ("action"@, JsonView::Text("goto"@)),
            ("url"@, JsonView::Text(url@)),
        ]),
        Step::Wait { ms } => JsonView::Object(seq![
            ("action"@, JsonView::Text("wait"@)),
            ("ms"@, JsonView::Number(decimal(ms as nat))),
        ]),
        Step::Screenshot { name } => JsonView::Object(seq![
            ("action"@, JsonView::Text("screenshot"@)),
            ("name"@, JsonView::Text(name@)),
        ]),
        Step::Click { selector } => JsonView::Object(seq![
            ("action"@, JsonView::Text("click"@)),
            ("selector"@, JsonView::Text(selector@)),
        ]),
        Step::Type { selector, text } => JsonView::Object(seq![
            ("action"@, JsonView::Text("type"@)),
            ("selector"@, JsonView::Text(selector@)),
            ("text"@, JsonView::Text(text@)),
        ]),
        Step::ExtractText { selector, save_as } => JsonView::Object(seq![
            ("action"@, JsonView::Text("extract_text"@)),
            ("selector"@, JsonView::Text(selector@)),
            ("save_as"@, JsonView::Text(save_as@)),
        ]),
        Step::Evaluate { script, save_as } => JsonView::Object(seq![
            ("action"@, JsonView::Text("evaluate"@)),
            ("script"@, JsonView::Text(script@)),
            ("save_as"@, opt_text(opt_string_view(save_as))),
        ]),
    }
}

/// An object with the two given members.
fn object2(k1: &str, v1: JsonValue, k2: &str, v2: JsonValue) -> (v: JsonValue)
    requires
        k1@ != k2@,
    ensures
        v@ == JsonView::Object(seq![(k1@, v1@), (k2@, v2@)]),
{
    let mut ms: Vec<JsonMember> = Vec::new();
    ms.push(member(k1, v1));
    ms.push(member(k2, v2));
    proof {
        reveal_with_fuel(members_view, 3);
        assert(members_view(ms@) =~= seq![(k1@, v1@), (k2@, v2@)]);
    }
    object(ms)
}

/// An object with the three given members.
fn object3(k1: &str, v1: JsonValue, k2: &str, v2: JsonValue, k3: &str, v3: JsonValue) -> (v: JsonValue)
    requires
        k1@ != k2@,
        k1@ != k3@,
        k2@ != k3@,
    ensures
        v@ == JsonView::Object(seq![(k1@, v1@), (k2@, v2@), (k3@, v3@)]),
{
    let mut ms: Vec<JsonMember> = Vec::new();
    ms.push(member(k1, v1));
    ms.push(member(k2, v2));
    ms.push(member(k3, v3));
    proof {
        reveal_with_fuel(members_view, 4);
        assert(members_view(ms@) =~= seq![(k1@, v1@), (k2@, v2@), (k3@, v3@)]);
    }
    object(ms)
}

impl Step {
    /// The JSON form of this step.
    pub fn to_json(&self) -> (v: JsonValue)
        ensures
            v@ == step_json(*self),
    {
        proof {
            reveal_strlit("action");
            reveal_strlit("url");
            reveal_strlit("ms");
            reveal_strlit("name");
            reveal_strlit("selector");
            reveal_strlit("text");
            reveal_strlit("save_as");
            reveal_strlit("script");
            assert(("action"@)[0] == 'a' && ("script"@)[0] == 's');
            assert(("selector"@).len() == 8 && ("text"@).len() == 4 && ("save_as"@).len() == 7);
        }
        match self {
            Step::Goto { url } => object2("action", text("goto"), "url", text(url.as_str())),
            Step::Wait { ms } => object2("action", text("wait"), "ms", unsigned_number(*ms)),
            Step::Screenshot { name } => object2("action", text("screenshot"), "name", text(name.as_str())),
            Step::Click { selector } => object2("action", text("click"), "selector", text(selector.as_str())),
            Step::Type { selector, text: t } => object3(
                "action", text("type"), "selector", text(selector.as_str()), "text", text(t.as_str())),
            Step::ExtractText { selector, save_as } => object3(
                "action", text("extract_text"), "selector", text(selector.as_str()),
                "save_as", text(save_as.as_str())),
            Step::Evaluate { script, save_as } => object3(
                "action", text("evaluate"), "script", text(script.as_str()),
                "save_as", opt_text_value(save_as)),
        }
    }
}

/// A request to create a task.
#[derive(Debug)]
pub struct CreateTaskRequest {
    pub name: String,
    pub steps: Vec<Step>,
    pub timeout_seconds: Option<i64>,
}

/// A stored task.
#[derive(Debug)]
pub struct TaskRecord {
    pub id: String,
    pub name: String,
    pub status: TaskStatus,
    /// Creation time, RFC 3339 in UTC.
    pub created_at: String,
    pub started_at: Option<String>,
    pub finished_at: Option<String>,
    pub timeout_seconds: i64,
    pub input_json: JsonValue,
    pub result_json: Option<JsonValue>,
    pub error_text: Option<String>,
    pub artifact_dir: Option<String>,
}

/// One log line of a task.
#[derive(Debug)]
pub struct TaskLogRecord {
    pub id: i64,
    pub task_id: String,
    /// Time of the line, RFC 3339 in UTC.
    pub ts: String,
    pub level: String,
    pub message: String,
}

/// The refusal of a creation request, if any: a blank name first, then an
/// empty step list.
pub open spec fn request_refusal(name: Seq<char>, step_count: nat) -> Option<Seq<char>> {
    if is_blank(name) {
        Some("name cannot be empty"@)
    } else if step_count == 0 {
        Some("steps cannot be empty"@)
    } else {
        None
    }
}

/// The JSON input of a task created with `steps`: `{"steps": [...]}`.
pub open spec fn task_input(steps: Seq<Step>) -> JsonView {
    JsonView::Object(seq![("steps"@, JsonView::Array(steps.map_values(|s: Step| step_json(s))))])
}

/// Whether `v` is an object with the one member `steps`, an array whose
/// `i`-th item is the JSON form of the `i`-th step.
pub open spec fn lists_steps_in_order(v: JsonView, steps: Seq<Step>) -> bool {
    &&& v matches JsonView::Object(ms) && ms.len() == 1
    &&& field(v, "steps"@) matches Some(JsonView::Array(items))
        && items.len() == steps.len()
        && forall|i: int| 0 <= i < items.len() ==> items[i] == step_json(#[trigger] steps[i])
}

/// The input of a task lists its steps in request order, each as its JSON
/// form, and nothing else.
pub proof fn lemma_task_input_in_order(steps: Seq<Step>)
    ensures
        lists_steps_in_order(task_input(steps), steps),
{
    reveal_strlit("steps");
}

/// Checks a creation request: the name must hold more than whitespace and
/// there must be at least one step.
pub fn validate_create_request(payload: &CreateTaskRequest) -> (r: Result<(), AppError>)
    ensures
        r is Ok <==> request_refusal(payload.name@, payload.steps@.len()) is None,
        r matches Err(e) ==> e is InvalidRequest
            && Some(e->InvalidRequest_0@) == request_refusal(payload.name@, payload.steps@.len()),
{
    if is_blank_text(payload.name.as_str()) {
        return Err(AppError::InvalidRequest("name cannot be empty".to_string()));
    }
    if payload.steps.len() == 0 {
        return Err(AppError::InvalidRequest("steps cannot be empty".to_string()));
    }
    Ok(())
}

/// The JSON input of a task with these steps.
pub fn steps_input(steps: &Vec<Step>) -> (v: JsonValue)
    ensures
        v@ == task_input(steps@),
        lists_steps_in_order(v@, steps@),
{
    let mut items: Vec<JsonValue> = Vec::new();
    let mut i: usize = 0;
    while i < steps.len()
        invariant
            i <= steps@.len(),
            items_view(items@) == steps@.take(i as int).map_values(|s: Step| step_json(s)),
        decreases steps@.len() - i,
    {
        let v = steps[i].to_json();
        let ghost before = items@;
        items.push(v);
        proof {
            assert(items@.drop_last() == before);
            assert(steps@.take(i + 1).map_values(|s: Step| step_json(s))
                =~= steps@.take(i as int).map_values(|s: Step| step_json(s)).push(step_json(steps@[i as int])));
        }
        i = i + 1;
    }
    assert(steps@.take(steps@.len() as int) =~= steps@);
    let mut ms: Vec<JsonMember> = Vec::new();
    ms.push(member("steps", array(items)));
    proof {
        reveal_with_fuel(members_view, 2);
        assert(members_view(ms@) =~= seq![("steps"@, JsonView::Array(steps@.map_values(|s: Step| step_json(s))))]);
        lemma_task_input_in_order(steps@);
    }
    object(ms)
}

/// The record of a new task with identifier `id` created at `now`: queued,
/// never started, with the request's name, its timeout or `default_timeout`
/// when it gives none, and its steps as input.
pub fn build_task_record(id: String, now: String, payload: CreateTaskRequest, default_timeout: i64) -> (t: TaskRecord)
    ensures
        t.id == id,
        t.name == payload.name,
        t.status == TaskStatus::Queued,
        t.created_at == now,
        t.started_at is None,
        t.finished_at is None,
        t.timeout_seconds == match payload.timeout_seconds { Some(s) => s, None => default_timeout },
        t.input_json@ == task_input(payload.steps@),
        lists_steps_in_order(t.input_json@, payload.steps@),
        t.result_json is None,
        t.error_text is None,
        t.artifact_dir is None,
{
    let input_json = steps_input(&payload.steps);
    let timeout_seconds = match payload.timeout_seconds {
        Some(s) => s,
        None => default_timeout,
    };
    TaskRecord {
        id,
        name: payload.name,
        status: TaskStatus::Queued,
        created_at: now,
        started_at: None,
        finished_at: None,
        timeout_seconds,
        input_json,
        result_json: None,
        error_text: None,
        artifact_dir: None,
    }
}

/// Whether `c` is a lowercase hexadecimal digit.
pub open spec fn is_lower_hex(c: char) -> bool {
    ('0' <= c && c <= '9') || ('a' <= c && c <= 'f')
}

/// Whether `s` is the hyphenated lowercase text of a random (version 4,
/// RFC 4122 variant) UUID: 36 characters, hyphens at 8, 13, 18 and 23,
/// lowercase hex elsewhere, `4` at 14 and one of `8`, `9`, `a`, `b` at 19.
pub open spec fn is_uuid_v4_text(s: Seq<char>) -> bool {
    &&& s.len() == 36
    &&& forall|i: int| 0 <= i < 36 ==> if i == 8 || i == 13 || i == 18 || i == 23 {
        s[i] == '-'
    } else {
        is_lower_hex(#[trigger] s[i])
    }
    &&& s[14] == '4'
    &&& (s[19] == '8' || s[19] == '9' || s[19] == 'a' || s[19] == 'b')
}

/// `uuid::Uuid::new_v4` rendered by `to_string`: a fresh random identifier.
/// The random bits are not stated; the text is the hyphenated lowercase form
/// that `Display` writes, with the version and variant bits `new_v4` sets.
#[verifier::external_body]
fn new_task_id() -> (id: String)
    ensures
        is_uuid_v4_text(id@),
{
    uuid::Uuid::new_v4().to_string()
}

/// `chrono::Utc::now` rendered by `to_rfc3339`: the current time. Which
/// instant it is is not stated; its text is one that `parse_from_rfc3339`,
/// taken to UTC and rendered again, gives back unchanged.
#[verifier::external_body]
fn utc_now_text() -> (now: String)
    ensures
        rfc3339_utc(now@) == Ok::<Seq<char>, Seq<char>>(now@),
{
    chrono::Utc::now().to_rfc3339()
}

/// The record of a task created from `payload`, with a fresh identifier and
/// the current time, or the refusal of the request.
pub fn create_task_record(payload: CreateTaskRequest, default_timeout: i64) -> (r: Result<TaskRecord, AppError>)
    ensures
        r is Ok <==> request_refusal(payload.name@, payload.steps@.len()) is None,
        r matches Err(e) ==> e is InvalidRequest
            && Some(e->InvalidRequest_0@) == request_refusal(payload.name@, payload.steps@.len()),
        r matches Ok(t) ==> {
            &&& t.name == payload.name
            &&& t.status == TaskStatus::Queued
            &&& t.started_at is None
            &&& t.finished_at is None
            &&& t.timeout_seconds == match payload.timeout_seconds { Some(s) => s, None => default_timeout }
            &&& t.input_json@ == task_input(payload.steps@)
            &&& lists_steps_in_order(t.input_json@, payload.steps@)
            &&& t.result_json is None
            &&& t.error_text is None
            &&& t.artifact_dir is None
            &&& is_uuid_v4_text(t.id@)
            &&& rfc3339_utc(t.created_at@) == Ok::<Seq<char>, Seq<char>>(t.created_at@)
            &&& times_read_back(t)
        },
{
    match validate_create_request(&payload) {
        Err(e) => Err(e),
        Ok(()) => {
            let id = new_task_id();
            let now = utc_now_text();
            Ok(build_task_record(id, now, payload, default_timeout))
        },
    }
}

/// What `chrono::DateTime::parse_from_rfc3339` makes of a text, taken to UTC
/// and rendered by `to_rfc3339`; or the text of its parse error.
pub uninterp spec fn rfc3339_utc(text: Seq<char>) -> Result<Seq<char>, Seq<char>>;

/// `chrono::DateTime::parse_from_rfc3339`, then `with_timezone(&Utc)` and
/// `to_rfc3339`; the error is rendered by its `Display`. The result is named
/// by `rfc3339_utc`; nothing more is stated of it.
#[verifier::external_body]
fn parse_rfc3339_utc(text: &str) -> (r: Result<String, String>)
    ensures
        match r {
            Ok(t) => rfc3339_utc(text@) == Ok::<Seq<char>, Seq<char>>(t@),
            Err(e) => rfc3339_utc(text@) == Err::<Seq<char>, Seq<char>>(e@),
        },
{
    match chrono::DateTime::parse_from_rfc3339(text) {
        Ok(v) => Ok(v.with_timezone(&chrono::Utc).to_rfc3339()),
        Err(e) => Err(e.to_string()),
    }
}

/// A stored timestamp read back in UTC, or a database error.
pub fn parse_dt(s: &str) -> (r: Result<String, AppError>)
    ensures
        match rfc3339_utc(s@) {
            Ok(t) => r is Ok && r->Ok_0@ == t,
            Err(m) => r is Err && r->Err_0 is Database && r->Err_0->Database_0@ == m,
        },
{
    match parse_rfc3339_utc(s) {
        Ok(t) => Ok(t),
        Err(m) => Err(AppError::Database(m)),
    }
}

/// Whether an optional stored timestamp reads back.
pub open spec fn opt_dt_ok(s: Option<String>) -> bool {
    match s {
        Some(t) => rfc3339_utc(t@) is Ok,
        None => true,
    }
}

/// An optional stored timestamp read back in UTC, or a database error.
pub fn parse_optional_dt(s: Option<String>) -> (r: Result<Option<String>, AppError>)
    ensures
        r is Ok <==> opt_dt_ok(s),
        r matches Ok(v) ==> match s {
            Some(t) => v is Some && Ok::<Seq<char>, Seq<char>>(v->0@) == rfc3339_utc(t@),
            None => v is None,
        },
        r matches Err(e) ==> s is Some && e is Database
            && Err::<Seq<char>, Seq<char>>(e->Database_0@) == rfc3339_utc(s->0@),
{
    match s {
        Some(v) => match parse_dt(v.as_str()) {
            Ok(t) => Ok(Some(t)),
            Err(e) => Err(e),
        },
        None => Ok(None),
    }
}

/// A task as storage returns it: plain columns, with the JSON columns
/// already read (`None` where the stored text is absent or not JSON).
#[derive(Debug)]
pub struct TaskRow {
    pub id: String,
    pub name: String,
    pub status: String,
    pub created_at: String,
    pub started_at: Option<String>,
    pub finished_at: Option<String>,
    pub timeout_seconds: i64,
    pub input_json: Option<JsonValue>,
    pub result_json: Option<JsonValue>,
    pub error_text: Option<String>,
    pub artifact_dir: Option<String>,
}

/// A log line as storage returns it.
#[derive(Debug)]
pub struct TaskLogRow {
    pub id: i64,
    pub task_id: String,
    pub ts: String,
    pub level: String,
    pub message: String,
}

/// The error text of the first timestamp of a row that does not read back:
/// creation, start, then finish.
pub open spec fn row_time_error(created_at: String, started_at: Option<String>, finished_at: Option<String>) -> Option<Seq<char>> {
    if rfc3339_utc(created_at@) is Err {
        Some(rfc3339_utc(created_at@)->Err_0)
    } else if !opt_dt_ok(started_at) {
        Some(rfc3339_utc(started_at->0@)->Err_0)
    } else if !opt_dt_ok(finished_at) {
        Some(rfc3339_utc(finished_at->0@)->Err_0)
    } else {
        None
    }
}

/// A stored timestamp read back, when it reads back.
pub open spec fn read_dt(s: Option<String>) -> Option<Seq<char>> {
    match s {
        Some(t) => Some(rfc3339_utc(t@)->Ok_0),
        None => None,
    }
}

/// The record of a stored task row: its status read from text, its
/// timestamps read back in UTC, an unreadable input taken as null; a
/// database error when a timestamp does not read back.
pub fn task_record_from_row(row: TaskRow) -> (r: Result<TaskRecord, AppError>)
    ensures
        r is Ok <==> row_time_error(row.created_at, row.started_at, row.finished_at) is None,
        r matches Err(e) ==> e is Database
            && Some(e->Database_0@) == row_time_error(row.created_at, row.started_at, row.finished_at),
        r matches Ok(t) ==> {
            &&& t.id == row.id
            &&& t.name == row.name
            &&& t.status == status_from_text(row.status@)
            &&& t.created_at@ == rfc3339_utc(row.created_at@)->Ok_0
            &&& match t.started_at { Some(v) => read_dt(row.started_at) == Some(v@), None => row.started_at is None }
            &&& match t.finished_at { Some(v) => read_dt(row.finished_at) == Some(v@), None => row.finished_at is None }
            &&& t.timeout_seconds == row.timeout_seconds
            &&& t.input_json == match row.input_json { Some(v) => v, None => JsonValue::Null }
            &&& t.result_json == row.result_json
            &&& t.error_text == row.error_text
            &&& t.artifact_dir == row.artifact_dir
        },
{
    let status = parse_status(row.status.as_str());
    let created_at = match parse_dt(row.created_at.as_str()) {
        Ok(t) => t,
        Err(e) => return Err(e),
    };
    let started_at = match parse_optional_dt(row.started_at) {
        Ok(t) => t,
        Err(e) => return Err(e),
    };
    let finished_at = match parse_optional_dt(row.finished_at) {
        Ok(t) => t,
        Err(e) => return Err(e),
    };
    let input_json = match row.input_json {
        Some(v) => v,
        None => JsonValue::Null,
    };
    Ok(TaskRecord {
        id: row.id,
        name: row.name,
        status,
        created_at,
        started_at,
        finished_at,
        timeout_seconds: row.timeout_seconds,
        input_json,
        result_json: row.result_json,
        error_text: row.error_text,
        artifact_dir: row.artifact_dir,
    })
}

/// The record of a stored log row, or a database error when its time does
/// not read back.
pub fn log_record_from_row(row: TaskLogRow) -> (r: Result<TaskLogRecord, AppError>)
    ensures
        r is Ok <==> rfc3339_utc(row.ts@) is Ok,
        r matches Err(e) ==> e is Database && Err::<Seq<char>, Seq<char>>(e->Database_0@) == rfc3339_utc(row.ts@),
        r matches Ok(l) ==> {
            &&& l.id == row.id
            &&& l.task_id == row.task_id
            &&& Ok::<Seq<char>, Seq<char>>(l.ts@) == rfc3339_utc(row.ts@)
            &&& l.level == row.level
            &&& l.message == row.message
        },
{
    match parse_dt(row.ts.as_str()) {
        Ok(ts) => Ok(TaskLogRecord { id: row.id, task_id: row.task_id, ts, level: row.level, message: row.message }),
        Err(e) => Err(e),
    }
}

/// Whether `row` stores `t`: the status as its text, every other column as
/// the record holds it.
pub open spec fn row_holds(row: TaskRow, t: TaskRecord) -> bool {
    &&& row.id@ == t.id@
    &&& row.name@ == t.name@
    &&& row.status@ == status_text(t.status)
    &&& row.created_at@ == t.created_at@
    &&& opt_string_view(row.started_at) == opt_string_view(t.started_at)
    &&& opt_string_view(row.finished_at) == opt_string_view(t.finished_at)
    &&& row.timeout_seconds == t.timeout_seconds
    &&& opt_json_view(row.input_json) == Some(t.input_json@)
    &&& opt_json_view(row.result_json) == opt_json_view(t.result_json)
    &&& opt_string_view(row.error_text) == opt_string_view(t.error_text)
    &&& opt_string_view(row.artifact_dir) == opt_string_view(t.artifact_dir)
}

/// Whether each timestamp of `t` is a UTC text that reads back unchanged.
pub open spec fn times_read_back(t: TaskRecord) -> bool {
    &&& rfc3339_utc(t.created_at@) == Ok::<Seq<char>, Seq<char>>(t.created_at@)
    &&& (t.started_at matches Some(s) ==> rfc3339_utc(s@) == Ok::<Seq<char>, Seq<char>>(s@))
    &&& (t.finished_at matches Some(s) ==> rfc3339_utc(s@) == Ok::<Seq<char>, Seq<char>>(s@))
}

/// Whether each timestamp of `t` reads back unchanged, tested with
/// `parse_dt`.
pub fn check_times_read_back(t: &TaskRecord) -> (ok: bool)
    ensures
        ok == times_read_back(*t),
{
    if !reads_back_unchanged(&t.created_at) {
        return false;
    }
    let started_ok = match &t.started_at {
        Some(s) => reads_back_unchanged(s),
        None => true,
    };
    if !started_ok {
        return false;
    }
    match &t.finished_at {
        Some(s) => reads_back_unchanged(s),
        None => true,
    }
}

/// Whether the timestamp text `s` reads back as itself.
fn reads_back_unchanged(s: &String) -> (ok: bool)
    ensures
        ok == (rfc3339_utc(s@) == Ok::<Seq<char>, Seq<char>>(s@)),
{
    match parse_dt(s.as_str()) {
        Ok(back) => same_text(back.as_str(), s.as_str()),
        Err(_) => false,
    }
}

/// The row that stores `t`.
pub fn task_row_of(t: &TaskRecord) -> (row: TaskRow)
    ensures
        row_holds(row, *t),
{
    TaskRow {
        id: t.id.clone(),
        name: t.name.clone(),
        status: t.status.as_str().to_string(),
        created_at: t.created_at.clone(),
        started_at: t.started_at.clone(),
        finished_at: t.finished_at.clone(),
        timeout_seconds: t.timeout_seconds,
        input_json: Some(t.input_json.deep_clone()),
        result_json: match &t.result_json {
            Some(v) => Some(v.deep_clone()),
            None => None,
        },
        error_text: t.error_text.clone(),
        artifact_dir: t.artifact_dir.clone(),
    }
}

/// Reading back the row that stores a task gives the task: the read
/// succeeds, the status is the stored one, and every timestamp and column
/// comes back as written.
pub proof fn lemma_stored_task_reads_back(t: TaskRecord, row: TaskRow)
    requires
        row_holds(row, t),
        times_read_back(t),
    ensures
        row_time_error(row.created_at, row.started_at, row.finished_at) is None,
        status_from_text(row.status@) == t.status,
        rfc3339_utc(row.created_at@)->Ok_0 == t.created_at@,
        read_dt(row.started_at) == opt_string_view(t.started_at),
        read_dt(row.finished_at) == opt_string_view(t.finished_at),
        (match row.input_json { Some(v) => v, None => JsonValue::Null })@ == t.input_json@,
        opt_json_view(row.result_json) == opt_json_view(t.result_json),
{
    lemma_status_roundtrip(t.status);
}

} // verus!
