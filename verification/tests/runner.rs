use auto_open_browser::json::{JsonMember, JsonValue};
use auto_open_browser::runner::browser_runner::BrowserRunner;
use auto_open_browser::runner::fake::FakeRunner;
use auto_open_browser::runner::fake_runner::FakeRunner as LoggingFakeRunner;
use auto_open_browser::runner::lightpanda::cli::LightpandaCliAdapter;
use auto_open_browser::runner::lightpanda::models::{BrowserRunResult, LightpandaRawOutput};
use auto_open_browser::runner::lightpanda::parser::parse_output;
use auto_open_browser::runner::lightpanda::{
    extract_url, fetch_timeout_seconds, invalid_input, kill_args, lightpanda_bin, looks_like_url,
    prepare_fetch, terminate_result, truncate_output, FetchOutcome, LightpandaRunner,
};
use auto_open_browser::runner::{
    effective_worker_count, runner_concurrency_from_setting, unsupported_cancel, RunnerCapabilities,
    RunnerKind, RunnerOutcomeStatus, RunnerTask,
};
use auto_open_browser::task::{AppError, TaskRecord, TaskStatus};

fn s(v: &str) -> JsonValue {
    JsonValue::String(v.to_string())
}

fn n(v: &str) -> JsonValue {
    JsonValue::Number(v.to_string())
}

fn obj(members: Vec<(&str, JsonValue)>) -> JsonValue {
    JsonValue::Object(
        members
            .into_iter()
            .map(|(k, v)| JsonMember { key: k.to_string(), value: v })
            .collect(),
    )
}

fn task(kind: &str, payload: JsonValue, timeout: Option<i64>) -> RunnerTask {
    RunnerTask {
        task_id: "t-1".to_string(),
        kind: kind.to_string(),
        payload,
        timeout_seconds: timeout,
        attempt: 2,
    }
}

fn lightpanda_payload(
    ok: bool,
    status: &str,
    error_kind: Option<&str>,
    url: Option<&str>,
    timeout: Option<&str>,
    bin: Option<&str>,
    exit_code: Option<&str>,
    stdout: Option<&str>,
    stderr: Option<&str>,
    message: &str,
) -> JsonValue {
    let opt = |v: Option<&str>| v.map(s).unwrap_or(JsonValue::Null);
    obj(vec![
        ("runner", s("lightpanda")),
        ("action", s("open_page")),
        ("ok", JsonValue::Bool(ok)),
        ("status", s(status)),
        ("error_kind", opt(error_kind)),
        ("url", opt(url)),
        ("timeout_seconds", timeout.map(n).unwrap_or(JsonValue::Null)),
        ("bin", opt(bin)),
        ("exit_code", exit_code.map(n).unwrap_or(JsonValue::Null)),
        ("stdout_preview", opt(stdout)),
        ("stderr_preview", opt(stderr)),
        ("message", s(message)),
    ])
}

#[test]
fn runner_kind_reads_lightpanda_in_any_case() {
    assert_eq!(RunnerKind::from_setting(Some("LightPanda")), RunnerKind::Lightpanda);
    assert_eq!(RunnerKind::from_setting(Some("lightpanda")), RunnerKind::Lightpanda);
    assert_eq!(RunnerKind::from_setting(Some("fake")), RunnerKind::Fake);
    assert_eq!(RunnerKind::from_setting(Some(" lightpanda")), RunnerKind::Fake);
    assert_eq!(RunnerKind::from_setting(None), RunnerKind::Fake);
}

#[test]
fn concurrency_setting_reads_positive_numbers_only() {
    assert_eq!(runner_concurrency_from_setting(Some("4")), 4);
    assert_eq!(runner_concurrency_from_setting(Some("+7")), 7);
    assert_eq!(runner_concurrency_from_setting(Some("0")), 1);
    assert_eq!(runner_concurrency_from_setting(Some("-3")), 1);
    assert_eq!(runner_concurrency_from_setting(Some(" 3")), 1);
    assert_eq!(runner_concurrency_from_setting(Some("+")), 1);
    assert_eq!(runner_concurrency_from_setting(Some("")), 1);
    assert_eq!(runner_concurrency_from_setting(Some("99999999999999999999999")), 1);
    assert_eq!(runner_concurrency_from_setting(None), 1);
    assert_eq!(effective_worker_count(0), 1);
    assert_eq!(effective_worker_count(5), 5);
}

#[test]
fn capabilities_and_default_cancel() {
    let base = RunnerCapabilities::baseline();
    assert!(base.supports_timeout && !base.supports_cancel_running && !base.supports_artifacts);
    let lp = LightpandaRunner::default();
    let caps = lp.capabilities();
    assert!(caps.supports_timeout && caps.supports_cancel_running && !caps.supports_artifacts);
    assert_eq!(lp.name(), "lightpanda");
    let refusal = unsupported_cancel("fake");
    assert!(!refusal.accepted);
    assert_eq!(refusal.message, "runner fake does not support running cancel");
}

#[test]
fn fake_runner_simulates_failure_timeout_and_success() {
    let runner = FakeRunner;
    assert_eq!(runner.name(), "fake");
    let failed = runner.execute(task("fail", JsonValue::Null, None));
    assert_eq!(failed.status, RunnerOutcomeStatus::Failed);
    assert!(failed.result_json.is_none());
    assert_eq!(failed.error_message.as_deref(), Some("simulated failure by fake runner"));
    let timed_out = runner.execute(task("timeout", JsonValue::Null, None));
    assert_eq!(timed_out.status, RunnerOutcomeStatus::TimedOut);
    assert_eq!(timed_out.error_message.as_deref(), Some("simulated timeout by fake runner"));
    let ok = runner.execute(task("open_page", s("payload"), None));
    assert_eq!(ok.status, RunnerOutcomeStatus::Succeeded);
    assert!(ok.error_message.is_none());
    assert_eq!(
        ok.result_json,
        Some(obj(vec![
            ("runner", s("fake")),
            ("message", s("task completed by fake runner")),
            ("task_id", s("t-1")),
            ("attempt", n("2")),
            ("payload", s("payload")),
        ]))
    );
}

fn record(input: JsonValue) -> TaskRecord {
    TaskRecord {
        id: "id".to_string(),
        name: "demo".to_string(),
        status: TaskStatus::Queued,
        created_at: "2024-01-01T00:00:00+00:00".to_string(),
        started_at: None,
        finished_at: None,
        timeout_seconds: 30,
        input_json: input,
        result_json: None,
        error_text: None,
        artifact_dir: None,
    }
}

#[test]
fn logging_fake_runner_counts_steps() {
    let runner = LoggingFakeRunner::new();
    assert_eq!(
        runner.run_log_messages(),
        vec!["fake runner: starting task", "fake runner: simulating step execution", "fake runner: completed"]
    );
    let input = obj(vec![("steps", JsonValue::Array(vec![s("a"), s("b"), s("c")]))]);
    assert_eq!(
        runner.run_output(&record(input)),
        obj(vec![("message", s("fake runner executed")), ("task_name", s("demo")), ("steps_count", n("3"))])
    );
    let no_steps = obj(vec![("steps", s("not a list"))]);
    assert_eq!(
        runner.run_output(&record(no_steps)),
        obj(vec![("message", s("fake runner executed")), ("task_name", s("demo")), ("steps_count", n("0"))])
    );
}

#[test]
fn url_extraction_trims_and_rejects_empty() {
    assert_eq!(extract_url(&obj(vec![("url", s("  https://a.b/  "))])), Some("https://a.b/".to_string()));
    assert_eq!(extract_url(&obj(vec![("url", s("   "))])), None);
    assert_eq!(extract_url(&obj(vec![("url", n("5"))])), None);
    assert_eq!(extract_url(&obj(vec![("other", s("x"))])), None);
    assert_eq!(extract_url(&s("https://a.b")), None);
    assert!(looks_like_url("http://x"));
    assert!(looks_like_url("https://x"));
    assert!(!looks_like_url("ftp://x"));
    assert!(!looks_like_url("HTTP://x"));
}

#[test]
fn binary_setting_and_timeout_clamp() {
    assert_eq!(lightpanda_bin(Some("  /usr/local/bin/lightpanda \n")), "/usr/local/bin/lightpanda");
    assert_eq!(lightpanda_bin(Some("   ")), "lightpanda");
    assert_eq!(lightpanda_bin(None), "lightpanda");
    assert_eq!(fetch_timeout_seconds(None), 10);
    assert_eq!(fetch_timeout_seconds(Some(0)), 1);
    assert_eq!(fetch_timeout_seconds(Some(-5)), 1);
    assert_eq!(fetch_timeout_seconds(Some(45)), 45);
    assert_eq!(fetch_timeout_seconds(Some(500)), 120);
}

#[test]
fn output_preview_trims_and_truncates() {
    assert_eq!(truncate_output("  hello \n", 10), "hello");
    assert_eq!(truncate_output(" abcdef ", 3), "abc...[truncated]");
    assert_eq!(truncate_output("\u{3000}漢字かな\u{3000}", 2), "漢字...[truncated]");
    assert_eq!(truncate_output("abc", 3), "abc");
    assert_eq!(truncate_output("", 3), "");
}

#[test]
fn invalid_input_reports_failure() {
    let r = invalid_input("bad", Some("ftp://x"));
    assert_eq!(r.status, RunnerOutcomeStatus::Failed);
    assert_eq!(r.error_message.as_deref(), Some("bad"));
    assert_eq!(
        r.result_json,
        Some(lightpanda_payload(false, "failed", Some("invalid_input"), Some("ftp://x"), None, None, None, None, None, "bad"))
    );
}

#[test]
fn fetch_plan_refuses_missing_and_foreign_urls() {
    let missing = prepare_fetch(&task("open_page", obj(vec![]), None), "lightpanda".to_string());
    let err = missing.err().expect("refused");
    assert_eq!(err.error_message.as_deref(), Some("lightpanda runner requires a non-empty url in task payload"));
    let foreign = prepare_fetch(&task("open_page", obj(vec![("url", s("ftp://x"))]), None), "lightpanda".to_string());
    let err = foreign.err().expect("refused");
    assert_eq!(err.error_message.as_deref(), Some("lightpanda runner currently only accepts http:// or https:// urls"));
    assert_eq!(
        err.result_json,
        Some(lightpanda_payload(
            false, "failed", Some("invalid_input"), Some("ftp://x"), None, None, None, None, None,
            "lightpanda runner currently only accepts http:// or https:// urls"
        ))
    );
    let plan = prepare_fetch(&task("open_page", obj(vec![("url", s(" https://e.org "))]), Some(300)), "lp".to_string())
        .ok()
        .expect("planned");
    assert_eq!(plan.url, "https://e.org");
    assert_eq!(plan.timeout_seconds, 120);
    assert_eq!(plan.bin, "lp");
    assert_eq!(plan.command_args(), vec!["fetch", "--log-format", "pretty", "--log-level", "info", "https://e.org"]);
}

#[test]
fn fetch_outcomes_are_reported() {
    let t = task("open_page", obj(vec![("url", s("https://e.org"))]), None);
    let plan = prepare_fetch(&t, "lp".to_string()).ok().expect("planned");
    let mut runner = LightpandaRunner::default();

    runner.register_child("t-1", Some(41));
    let ok = runner.complete_fetch(
        "t-1",
        &plan,
        FetchOutcome::Exited { success: true, exit_code: Some(0), stdout: " page \n".to_string(), stderr: "  ".to_string() },
    );
    assert_eq!(ok.status, RunnerOutcomeStatus::Succeeded);
    assert!(ok.error_message.is_none());
    assert_eq!(
        ok.result_json,
        Some(lightpanda_payload(
            true, "succeeded", None, Some("https://e.org"), Some("10"), Some("lp"), Some("0"), Some("page"), None,
            "lightpanda fetch completed successfully"
        ))
    );
    assert_eq!(runner.cancel_target("t-1"), None);

    let failed = runner.complete_fetch(
        "t-1",
        &plan,
        FetchOutcome::Exited { success: false, exit_code: Some(-2), stdout: "".to_string(), stderr: "boom".to_string() },
    );
    assert_eq!(failed.status, RunnerOutcomeStatus::Failed);
    assert_eq!(failed.error_message.as_deref(), Some("lightpanda fetch exited with non-zero status"));
    assert_eq!(
        failed.result_json,
        Some(lightpanda_payload(
            false, "failed", Some("non_zero_exit"), Some("https://e.org"), Some("10"), Some("lp"), Some("-2"), None,
            Some("boom"), "lightpanda fetch exited with non-zero status"
        ))
    );

    let timed_out = runner.complete_fetch("t-1", &plan, FetchOutcome::TimedOut);
    assert_eq!(timed_out.status, RunnerOutcomeStatus::TimedOut);
    assert_eq!(timed_out.error_message.as_deref(), Some("lightpanda fetch timed out"));

    let spawn = runner.complete_fetch("t-1", &plan, FetchOutcome::SpawnFailed("No such file".to_string()));
    assert_eq!(spawn.status, RunnerOutcomeStatus::Failed);
    assert_eq!(spawn.error_message.as_deref(), Some("failed to spawn lightpanda binary: No such file"));
    assert_eq!(
        spawn.result_json,
        Some(lightpanda_payload(
            false, "failed", Some("spawn_failed"), Some("https://e.org"), Some("10"), Some("lp"), None, None, None,
            "failed to spawn lightpanda binary: No such file"
        ))
    );

    let wait = runner.complete_fetch("t-1", &plan, FetchOutcome::WaitFailed("interrupted".to_string()));
    assert_eq!(wait.error_message.as_deref(), Some("lightpanda process wait failed: interrupted"));
}

#[test]
fn long_output_is_cut_in_the_report() {
    let t = task("open_page", obj(vec![("url", s("https://e.org"))]), Some(5));
    let plan = prepare_fetch(&t, "lp".to_string()).ok().expect("planned");
    let mut runner = LightpandaRunner::default();
    let long = "x".repeat(4005);
    let r = runner.complete_fetch(
        "t-1",
        &plan,
        FetchOutcome::Exited { success: true, exit_code: Some(0), stdout: long, stderr: String::new() },
    );
    let expected = format!("{}...[truncated]", "x".repeat(4000));
    assert_eq!(
        r.result_json,
        Some(lightpanda_payload(
            true, "succeeded", None, Some("https://e.org"), Some("5"), Some("lp"), Some("0"), Some(&expected), None,
            "lightpanda fetch completed successfully"
        ))
    );
}

#[test]
fn cancel_uses_the_registered_process() {
    let mut runner = LightpandaRunner::default();
    runner.register_child("a", Some(100));
    runner.register_child("b", Some(200));
    runner.register_child("c", None);
    assert_eq!(runner.cancel_target("a"), Some(100));
    assert_eq!(runner.cancel_target("b"), Some(200));
    assert_eq!(runner.cancel_target("c"), None);
    runner.register_child("a", Some(101));
    assert_eq!(runner.cancel_target("a"), Some(101));

    let failed = runner.cancel_running("b", Some((200, Err("kill -TERM exited with status Some(1)".to_string()))));
    assert!(!failed.accepted);
    assert_eq!(
        failed.message,
        "lightpanda runner failed to terminate process for task_id=b, pid=200: kill -TERM exited with status Some(1)"
    );
    assert_eq!(runner.cancel_target("b"), Some(200));

    let done = runner.cancel_running("b", Some((200, Ok(()))));
    assert!(done.accepted);
    assert_eq!(done.message, "lightpanda runner sent SIGTERM to running process for task_id=b, pid=200");
    assert_eq!(runner.cancel_target("b"), None);
    assert_eq!(runner.cancel_target("a"), Some(101));

    let none = runner.cancel_running("zzz", None);
    assert!(!none.accepted);
    assert_eq!(none.message, "lightpanda runner has no registered running process for task_id=zzz");

    runner.unregister_child("a");
    assert_eq!(runner.cancel_target("a"), None);
}

#[test]
fn kill_command_and_its_outcome() {
    assert_eq!(kill_args(4242), vec!["-TERM", "4242"]);
    assert_eq!(terminate_result(Ok((true, Some(0)))), Ok(()));
    assert_eq!(terminate_result(Ok((false, Some(1)))), Err("kill -TERM exited with status Some(1)".to_string()));
    assert_eq!(terminate_result(Ok((false, None))), Err("kill -TERM exited with status None".to_string()));
    assert_eq!(
        terminate_result(Err("not found".to_string())),
        Err("failed to spawn kill command: not found".to_string())
    );
}

#[test]
fn raw_output_is_parsed() {
    let failed = parse_output(LightpandaRawOutput { ok: false, stdout: None, stderr: Some("oops".to_string()), result: None });
    assert!(matches!(failed, Err(AppError::Runner(m)) if m == "oops"));
    let failed = parse_output(LightpandaRawOutput { ok: false, stdout: None, stderr: None, result: None });
    assert!(matches!(failed, Err(AppError::Runner(m)) if m == "lightpanda execution failed"));
    let ok = parse_output(LightpandaRawOutput { ok: true, stdout: Some("log".to_string()), stderr: None, result: Some(n("1")) })
        .ok()
        .expect("parsed");
    assert_eq!(ok.result_json, n("1"));
    assert_eq!(ok.logs, vec!["log".to_string()]);
    assert!(ok.artifacts.is_empty());
    let bare = parse_output(LightpandaRawOutput { ok: true, stdout: None, stderr: None, result: None }).ok().expect("parsed");
    assert_eq!(bare.result_json, JsonValue::Null);
    assert!(bare.logs.is_empty());
}

#[test]
fn cli_adapter_builds_the_command_but_does_not_run() {
    let adapter = LightpandaCliAdapter::default();
    assert_eq!(adapter.command, "lightpanda-browser");
    let input = obj(vec![("steps", JsonValue::Array(vec![]))]);
    let t = record(input);
    let cmd = adapter.build_command_payload(&t).ok().expect("built");
    assert_eq!(cmd.steps, t.input_json);
    assert_eq!(cmd.timeout_seconds, 30);
    assert!(matches!(adapter.healthcheck(), Err(AppError::Runner(m)) if m == "lightpanda CLI adapter is not implemented yet"));
    assert!(matches!(adapter.run_task(&t), Err(AppError::Runner(m)) if m == "lightpanda CLI adapter is not implemented yet"));
}

#[test]
fn browser_runner_reports_result_logs_and_artifacts() {
    let runner = BrowserRunner::new(LightpandaCliAdapter::default());
    assert_eq!(runner.adapter().command, "lightpanda-browser");
    let v = BrowserRunner::<LightpandaCliAdapter>::convert_result(BrowserRunResult {
        result_json: s("r"),
        logs: vec!["one".to_string(), "two".to_string()],
        artifacts: vec![],
    });
    assert_eq!(
        v,
        obj(vec![
            ("result", s("r")),
            ("logs", JsonValue::Array(vec![s("one"), s("two")])),
            ("artifacts", JsonValue::Array(vec![])),
        ])
    );
}
