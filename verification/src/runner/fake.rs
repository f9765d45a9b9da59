//! A runner that executes nothing: it reports a failure or a timeout when
//! the task's kind asks for one, and a success otherwise.

use vstd::prelude::*;
use crate::json::{JsonView, JsonMember, member, object, text, unsigned_number,
    members_view, lemma_members_view_len};
use crate::runner::{RunnerExecutionResult, RunnerOutcomeStatus, RunnerTask, execution_view};
use crate::text::{decimal, same_text};

verus! {

/// The runner that simulates task execution.
#[derive(Debug, Clone, Copy)]
pub struct FakeRunner;

/// The report the fake runner gives for a task of `kind`, with `task_id`,
/// `attempt` and `payload`.
pub open spec fn fake_report(kind: Seq<char>, task_id: Seq<char>, attempt: u32, payload: JsonView)
    -> (RunnerOutcomeStatus, Option<JsonView>, Option<Seq<char>>) {
    if kind == "fail"@ {
        (RunnerOutcomeStatus::Failed, None, Some("simulated failure by fake runner"@))
    } else if kind == "timeout"@ {
        (RunnerOutcomeStatus::TimedOut, None, Some("simulated timeout by fake runner"@))
    } else {
        (RunnerOutcomeStatus::Succeeded, Some(JsonView::Object(seq![
            ("runner"@, JsonView::Text("fake"@)),
            ("message"@, JsonView::Text("task completed by fake runner"@)),
            ("task_id"@, JsonView::Text(task_id)),
            ("attempt"@, JsonView::Number(decimal(attempt as nat))),
            ("payload"@, payload),
        ])), None)
    }
}

impl FakeRunner {
    /// The runner's name.
    pub fn name(&self) -> (n: &'static str)
        ensures
            n@ == "fake"@,
    {
        "fake"
    }

    /// The report for `task`: a simulated failure for kind `fail`, a
    /// simulated timeout for kind `timeout`, else a success echoing the task.
    pub fn execute(&self, task: RunnerTask) -> (r: RunnerExecutionResult)
        ensures
            execution_view(r) == fake_report(task.kind@, task.task_id@, task.attempt, task.payload@),
    {
        if same_text(task.kind.as_str(), "fail") {
            RunnerExecutionResult {
                status: RunnerOutcomeStatus::Failed,
                result_json: None,
                error_message: Some("simulated failure by fake runner".to_string()),
            }
        } else if same_text(task.kind.as_str(), "timeout") {
            RunnerExecutionResult {
                status: RunnerOutcomeStatus::TimedOut,
                result_json: None,
                error_message: Some("simulated timeout by fake runner".to_string()),
            }
        } else {
            let ghost payload = task.payload@;
            let mut ms: Vec<JsonMember> = Vec::new();
            ms.push(member("runner", text(self.name())));
            ms.push(member("message", text("task completed by fake runner")));
            ms.push(member("task_id", text(task.task_id.as_str())));
            ms.push(member("attempt", unsigned_number(task.attempt as u64)));
            ms.push(member("payload", task.payload));
            proof {
                lemma_members_view_len(ms@);
                assert(members_view(ms@) =~= seq![
                    ("runner"@, JsonView::Text("fake"@)),
                    ("message"@, JsonView::Text("task completed by fake runner"@)),
                    ("task_id"@, JsonView::Text(task.task_id@)),
                    ("attempt"@, JsonView::Number(decimal(task.attempt as nat))),
                    ("payload"@, payload),
                ]);
                reveal_strlit("runner");
                reveal_strlit("message");
                reveal_strlit("task_id");
                reveal_strlit("attempt");
                reveal_strlit("payload");
                assert(("runner"@).len() == 6);
                assert(("message"@).len() == 7);
                assert(("task_id"@).len() == 7);
                assert(("attempt"@).len() == 7);
                assert(("payload"@).len() == 7);
                assert(("runner"@)[0] == 'r');
                assert(("message"@)[0] == 'm');
                assert(("task_id"@)[0] == 't');
                assert(("attempt"@)[0] == 'a');
                assert(("payload"@)[0] == 'p');
            }
            RunnerExecutionResult {
                status: RunnerOutcomeStatus::Succeeded,
                result_json: Some(object(ms)),
                error_message: None,
            }
        }
    }
}

} // verus!
