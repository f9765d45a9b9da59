//! The process-based Lightpanda adapter. It builds the command for a task;
//! running it is not implemented, and the adapter says so.

use vstd::prelude::*;
use crate::task::{AppError, TaskRecord};
use super::models::{BrowserRunResult, LightpandaCommand};

verus! {

/// The Lightpanda CLI adapter and the command it would run.
#[derive(Debug, Clone)]
pub struct LightpandaCliAdapter {
    pub command: String,
}

impl Default for LightpandaCliAdapter {
    fn default() -> (a: LightpandaCliAdapter)
        ensures
            a.command@ == "lightpanda-browser"@,
    {
        LightpandaCliAdapter { command: "lightpanda-browser".to_string() }
    }
}

/// The error every run of the CLI adapter ends with.
pub open spec fn not_implemented_message() -> Seq<char> {
    "lightpanda CLI adapter is not implemented yet"@
}

impl LightpandaCliAdapter {
    /// The command for `task`: its input steps and its timeout.
    pub fn build_command_payload(&self, task: &TaskRecord) -> (r: Result<LightpandaCommand, AppError>)
        ensures
            r is Ok,
            r matches Ok(c) ==> c.steps@ == task.input_json@ && c.timeout_seconds == task.timeout_seconds,
    {
        Ok(LightpandaCommand { steps: task.input_json.deep_clone(), timeout_seconds: task.timeout_seconds })
    }

    /// The adapter's health: not implemented, so always a runner error.
    pub fn healthcheck(&self) -> (r: Result<(), AppError>)
        ensures
            r matches Err(e) && e is Runner && e->Runner_0@ == not_implemented_message(),
    {
        Err(AppError::Runner("lightpanda CLI adapter is not implemented yet".to_string()))
    }

    /// Running `task`: the command is built, then the run fails with a
    /// runner error, as running is not implemented.
    pub fn run_task(&self, task: &TaskRecord) -> (r: Result<BrowserRunResult, AppError>)
        ensures
            r matches Err(e) && e is Runner && e->Runner_0@ == not_implemented_message(),
    {
        let _payload = match self.build_command_payload(task) {
            Ok(p) => p,
            Err(e) => return Err(e),
        };
        Err(AppError::Runner("lightpanda CLI adapter is not implemented yet".to_string()))
    }
}

} // verus!
