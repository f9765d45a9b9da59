use auto_open_browser::config::{AppConfig, RunnerModeConfig};
use auto_open_browser::db::sqlite_file_path;
use auto_open_browser::json::{JsonMember, JsonValue};
use auto_open_browser::scheduler::{completion_for, TaskCompletion};
use auto_open_browser::task::{
    build_task_record, check_times_read_back, create_task_record, log_record_from_row, parse_dt, parse_optional_dt, parse_status,
    task_record_from_row, task_row_of, validate_create_request, AppError, CreateTaskRequest, Step, TaskLogRow,
    TaskRow, TaskStatus,
};
use auto_open_browser::runner::lightpanda::lightpanda_bin;
use auto_open_browser::text::{i64_text, same_text, starts_with_text, u64_text};

fn s(v: &str) -> JsonValue {
    JsonValue::String(v.to_string())
}

fn obj(members: Vec<(&str, JsonValue)>) -> JsonValue {
    JsonValue::Object(
        members
            .into_iter()
            .map(|(k, v)| JsonMember { key: k.to_string(), value: v })
            .collect(),
    )
}

#[test]
fn status_text_reads_back() {
    let all = [
        TaskStatus::Queued,
        TaskStatus::Running,
        TaskStatus::Success,
        TaskStatus::Failed,
        TaskStatus::Cancelled,
        TaskStatus::Timeout,
    ];
    for status in all {
        assert_eq!(parse_status(status.as_str()), status);
    }
    assert_eq!(TaskStatus::Success.as_str(), "success");
    assert_eq!(parse_status("weird"), TaskStatus::Failed);
    assert_eq!(parse_status("Queued"), TaskStatus::Failed);
}

#[test]
fn steps_render_as_tagged_objects() {
    assert_eq!(Step::Goto { url: "https://x".to_string() }.to_json(), obj(vec![("action", s("goto")), ("url", s("https://x"))]));
    assert_eq!(
        Step::Wait { ms: 250 }.to_json(),
        obj(vec![("action", s("wait")), ("ms", JsonValue::Number("250".to_string()))])
    );
    assert_eq!(
        Step::Type { selector: "#q".to_string(), text: "hi".to_string() }.to_json(),
        obj(vec![("action", s("type")), ("selector", s("#q")), ("text", s("hi"))])
    );
    assert_eq!(
        Step::ExtractText { selector: "h1".to_string(), save_as: "title".to_string() }.to_json(),
        obj(vec![("action", s("extract_text")), ("selector", s("h1")), ("save_as", s("title"))])
    );
    assert_eq!(
        Step::Evaluate { script: "1+1".to_string(), save_as: None }.to_json(),
        obj(vec![("action", s("evaluate")), ("script", s("1+1")), ("save_as", JsonValue::Null)])
    );
    assert_eq!(
        Step::Screenshot { name: "home".to_string() }.to_json(),
        obj(vec![("action", s("screenshot")), ("name", s("home"))])
    );
    assert_eq!(Step::Click { selector: "a".to_string() }.to_json(), obj(vec![("action", s("click")), ("selector", s("a"))]));
}

fn request(name: &str, steps: Vec<Step>, timeout: Option<i64>) -> CreateTaskRequest {
    CreateTaskRequest { name: name.to_string(), steps, timeout_seconds: timeout }
}

#[test]
fn creation_requests_are_checked() {
    let blank = validate_create_request(&request(" \t\u{3000}", vec![Step::Wait { ms: 1 }], None));
    assert!(matches!(blank, Err(AppError::InvalidRequest(m)) if m == "name cannot be empty"));
    let no_steps = validate_create_request(&request("demo", vec![], None));
    assert!(matches!(no_steps, Err(AppError::InvalidRequest(m)) if m == "steps cannot be empty"));
    let both = validate_create_request(&request("", vec![], None));
    assert!(matches!(both, Err(AppError::InvalidRequest(m)) if m == "name cannot be empty"));
    assert!(validate_create_request(&request(" demo ", vec![Step::Wait { ms: 1 }], None)).is_ok());
}

#[test]
fn new_task_is_queued_with_default_timeout() {
    let t = build_task_record(
        "id-1".to_string(),
        "2024-05-01T10:00:00+00:00".to_string(),
        request("demo", vec![Step::Goto { url: "https://x".to_string() }], None),
        60,
    );
    assert_eq!(t.id, "id-1");
    assert_eq!(t.name, "demo");
    assert_eq!(t.status, TaskStatus::Queued);
    assert_eq!(t.created_at, "2024-05-01T10:00:00+00:00");
    assert_eq!(t.timeout_seconds, 60);
    assert!(t.started_at.is_none() && t.finished_at.is_none() && t.result_json.is_none());
    assert!(t.error_text.is_none() && t.artifact_dir.is_none());
    assert_eq!(
        t.input_json,
        obj(vec![("steps", JsonValue::Array(vec![obj(vec![("action", s("goto")), ("url", s("https://x"))])]))])
    );
    let own = create_task_record(request("demo", vec![Step::Wait { ms: 5 }], Some(7)), 60).ok().expect("created");
    assert_eq!(own.timeout_seconds, 7);
    assert_eq!(own.status, TaskStatus::Queued);
    assert_eq!(own.id.len(), 36);
    for (i, c) in own.id.chars().enumerate() {
        if i == 8 || i == 13 || i == 18 || i == 23 {
            assert_eq!(c, '-');
        } else {
            assert!(c.is_ascii_digit() || ('a'..='f').contains(&c));
        }
    }
    assert_eq!(own.id.chars().nth(14), Some('4'));
    assert!(matches!(own.id.chars().nth(19), Some('8' | '9' | 'a' | 'b')));
    assert_eq!(parse_dt(&own.created_at).ok(), Some(own.created_at.clone()));
    assert!(check_times_read_back(&own));
    let other = create_task_record(request("demo", vec![Step::Wait { ms: 5 }], None), 60).ok().expect("created");
    assert_ne!(own.id, other.id);
    assert!(matches!(create_task_record(request("", vec![], None), 60), Err(AppError::InvalidRequest(_))));
}

#[test]
fn timestamps_read_back_in_utc() {
    assert_eq!(parse_dt("2024-01-01T08:30:00+08:00").ok(), Some("2024-01-01T00:30:00+00:00".to_string()));
    assert!(matches!(parse_dt("yesterday"), Err(AppError::Database(_))));
    assert_eq!(parse_optional_dt(None).ok(), Some(None));
    assert!(parse_optional_dt(Some("nope".to_string())).is_err());
}

fn row(created: &str, started: Option<&str>) -> TaskRow {
    TaskRow {
        id: "id".to_string(),
        name: "n".to_string(),
        status: "running".to_string(),
        created_at: created.to_string(),
        started_at: started.map(|v| v.to_string()),
        finished_at: None,
        timeout_seconds: 9,
        input_json: None,
        result_json: Some(s("done")),
        error_text: Some("e".to_string()),
        artifact_dir: None,
    }
}

#[test]
fn rows_become_records() {
    let t = task_record_from_row(row("2024-01-01T00:00:00Z", Some("2024-01-01T01:00:00+01:00"))).ok().expect("read");
    assert_eq!(t.status, TaskStatus::Running);
    assert_eq!(t.created_at, "2024-01-01T00:00:00+00:00");
    assert_eq!(t.started_at.as_deref(), Some("2024-01-01T00:00:00+00:00"));
    assert_eq!(t.input_json, JsonValue::Null);
    assert_eq!(t.result_json, Some(s("done")));
    assert_eq!(t.error_text.as_deref(), Some("e"));
    assert_eq!(t.timeout_seconds, 9);
    assert!(matches!(task_record_from_row(row("bad", None)), Err(AppError::Database(_))));
    assert!(matches!(task_record_from_row(row("2024-01-01T00:00:00Z", Some("bad"))), Err(AppError::Database(_))));
    let log = log_record_from_row(TaskLogRow {
        id: 3,
        task_id: "id".to_string(),
        ts: "2024-01-01T00:00:00Z".to_string(),
        level: "info".to_string(),
        message: "task created".to_string(),
    })
    .ok()
    .expect("read");
    assert_eq!(log.ts, "2024-01-01T00:00:00+00:00");
    assert_eq!(log.message, "task created");
}

#[test]
fn stored_task_reads_back_unchanged() {
    let t = build_task_record(
        "id-9".to_string(),
        "2024-05-01T10:00:00+00:00".to_string(),
        request("demo", vec![Step::Click { selector: "a".to_string() }], Some(3)),
        60,
    );
    assert!(check_times_read_back(&t));
    let mut shifted = task_row_of(&t);
    shifted.created_at = "2024-05-01T12:00:00+02:00".to_string();
    let shifted = task_record_from_row(shifted).ok().expect("read");
    assert!(check_times_read_back(&shifted));
    let mut offset = build_task_record(
        "id-8".to_string(),
        "2024-05-01T12:00:00+02:00".to_string(),
        request("demo", vec![Step::Click { selector: "a".to_string() }], None),
        60,
    );
    assert!(!check_times_read_back(&offset));
    offset.created_at = "2024-05-01T10:00:00+00:00".to_string();
    offset.finished_at = Some("not a time".to_string());
    assert!(!check_times_read_back(&offset));
    let stored = task_row_of(&t);
    assert_eq!(stored.status, "queued");
    let back = task_record_from_row(stored).ok().expect("read");
    assert_eq!(back.id, t.id);
    assert_eq!(back.status, t.status);
    assert_eq!(back.created_at, t.created_at);
    assert_eq!(back.input_json, t.input_json);
    assert_eq!(back.timeout_seconds, t.timeout_seconds);
}

#[test]
fn errors_have_texts_and_close_tasks() {
    assert_eq!(AppError::NotFound.message(), "not found");
    assert_eq!(AppError::Runner("x".to_string()).message(), "runner error: x");
    assert_eq!(AppError::Database("d".to_string()).message(), "database error: d");
    assert_eq!(AppError::InvalidRequest("i".to_string()).message(), "invalid request: i");
    assert_eq!(AppError::Internal("z".to_string()).message(), "internal error: z");
    assert!(matches!(completion_for(Ok(s("r"))), TaskCompletion::Succeeded(v) if v == s("r")));
    assert!(matches!(completion_for(Err(AppError::Runner("x".to_string()))), TaskCompletion::Failed(m) if m == "runner error: x"));
}

#[test]
fn default_config_and_database_path() {
    let c = AppConfig::default();
    assert_eq!(c.listen_addr, "127.0.0.1:8080");
    assert_eq!(c.data_dir, "data");
    assert_eq!(c.db_path, "data/app.db");
    assert_eq!(c.artifacts_dir, "data/artifacts");
    assert_eq!(c.max_concurrent_tasks, 4);
    assert_eq!(c.default_timeout_seconds, 60);
    assert!(matches!(c.runner_mode, RunnerModeConfig::Fake));
    assert_eq!(sqlite_file_path("sqlite://data/auto_open_browser.db").as_deref(), Some("data/auto_open_browser.db"));
    assert_eq!(sqlite_file_path("postgres://x"), None);
}

#[test]
fn text_helpers() {
    assert_eq!(lightpanda_bin(Some("\u{85} a b \u{2029}")), "a b");
    assert_eq!(u64_text(0), "0");
    assert_eq!(u64_text(18446744073709551615), "18446744073709551615");
    assert_eq!(i64_text(-9223372036854775808), "-9223372036854775808");
    assert_eq!(i64_text(42), "42");
    assert!(same_text("abc", "abc"));
    assert!(!same_text("abc", "abd"));
    assert!(starts_with_text("https://x", "https://"));
    assert!(!starts_with_text("http", "https://"));
}

#[test]
fn json_lookup_and_copy() {
    let v = obj(vec![("a", s("1")), ("b", JsonValue::Array(vec![JsonValue::Bool(true)])), ("a", s("2"))]);
    assert_eq!(v.get("a"), Some(&s("1")));
    assert_eq!(v.get("c"), None);
    assert_eq!(v.get("b").and_then(|x| x.as_array()).map(|x| x.len()), Some(1));
    assert_eq!(s("x").as_str(), Some("x"));
    assert_eq!(JsonValue::Null.as_str(), None);
    assert_eq!(v.deep_clone(), v);
}
