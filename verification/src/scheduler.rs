//! The dispatcher's decision after a run: how the task is closed.

use vstd::prelude::*;
use crate::json::JsonValue;
use crate::task::{AppError, error_text};

verus! {

/// How a task is closed after its run.
#[derive(Debug)]
pub enum TaskCompletion {
    /// Mark the task successful with this result.
    Succeeded(JsonValue),
    /// Mark the task failed with this error text.
    Failed(String),
}

/// A run's outcome turned into the task's closing: its result on success,
/// its error's text on failure.
pub fn completion_for(run: Result<JsonValue, AppError>) -> (c: TaskCompletion)
    ensures
        match run {
            Ok(v) => c == TaskCompletion::Succeeded(v),
            Err(e) => c is Failed && c->Failed_0@ == error_text(e),
        },
{
    match run {
        Ok(v) => TaskCompletion::Succeeded(v),
        Err(e) => TaskCompletion::Failed(e.message()),
    }
}

} // verus!
