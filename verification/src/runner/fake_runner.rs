//! The first-generation fake runner: it logs three lines and reports how
//! many steps the task has.

use vstd::prelude::*;
use crate::json::{JsonValue, JsonView, JsonMember, member, object, text, unsigned_number,
    members_view, lemma_members_view_len, lemma_items_view_len, field};
use crate::task::TaskRecord;
use crate::text::decimal;

verus! {

/// The runner that simulates execution by logging.
#[derive(Debug, Clone, Copy, Default)]
pub struct FakeRunner;

/// The number of steps a task input holds: the length of its `steps`
/// array, or 0.
pub open spec fn step_count(input: JsonView) -> nat {
    match field(input, "steps"@) {
        Some(JsonView::Array(items)) => items.len(),
        _ => 0,
    }
}

impl FakeRunner {
    /// A fake runner.
    pub fn new() -> (r: Self) {
        FakeRunner
    }

    /// The log lines of a run, in order.
    pub fn run_log_messages(&self) -> (lines: Vec<&'static str>)
        ensures
            lines@.len() == 3,
            lines@[0]@ == "fake runner: starting task"@,
            lines@[1]@ == "fake runner: simulating step execution"@,
            lines@[2]@ == "fake runner: completed"@,
    {
        let mut lines: Vec<&'static str> = Vec::new();
        lines.push("fake runner: starting task");
        lines.push("fake runner: simulating step execution");
        lines.push("fake runner: completed");
        lines
    }

    /// The result of running `task`: the task's name and its step count.
    pub fn run_output(&self, task: &TaskRecord) -> (v: JsonValue)
        ensures
            v@ == JsonView::Object(seq![
                ("message"@, JsonView::Text("fake runner executed"@)),
                ("task_name"@, JsonView::Text(task.name@)),
                ("steps_count"@, JsonView::Number(decimal(step_count(task.input_json@)))),
            ]),
    {
        let count: usize = match task.input_json.get("steps") {
            Some(v) => match v.as_array() {
                Some(items) => {
                    proof {
                        lemma_items_view_len(items@);
                    }
                    items.len()
                },
                None => 0,
            },
            None => 0,
        };
        let mut ms: Vec<JsonMember> = Vec::new();
        ms.push(member("message", text("fake runner executed")));
        ms.push(member("task_name", text(task.name.as_str())));
        ms.push(member("steps_count", unsigned_number(count as u64)));
        proof {
            lemma_members_view_len(ms@);
            assert(members_view(ms@) =~= seq![
                ("message"@, JsonView::Text("fake runner executed"@)),
                ("task_name"@, JsonView::Text(task.name@)),
                ("steps_count"@, JsonView::Number(decimal(step_count(task.input_json@)))),
            ]);
            reveal_strlit("message");
            reveal_strlit("task_name");
            reveal_strlit("steps_count");
            assert(("message"@).len() == 7);
            assert(("task_name"@).len() == 9);
            assert(("steps_count"@).len() == 11);
        }
        object(ms)
    }
}

} // verus!
