//! Reading what the Lightpanda CLI reports into a browser run result.

use vstd::prelude::*;
use crate::json::{JsonValue, JsonView};
use crate::task::AppError;
use super::models::{BrowserRunResult, LightpandaRawOutput};

verus! {

/// The result of a raw report: a runner error carrying the error output (or
/// a fixed text when there is none) when the run failed; otherwise the
/// reported result (null when absent), the standard output as the only log
/// line when there is one, and no artifacts.
pub fn parse_output(raw: LightpandaRawOutput) -> (r: Result<BrowserRunResult, AppError>)
    ensures
        r is Ok <==> raw.ok,
        r matches Err(e) ==> e is Runner && e->Runner_0@ == match raw.stderr {
            Some(s) => s@,
            None => "lightpanda execution failed"@,
        },
        r matches Ok(b) ==> {
            &&& b.result_json@ == match raw.result { Some(v) => v@, None => JsonView::Null }
            &&& b.logs@.len() == if raw.stdout is Some { 1int } else { 0int }
            &&& raw.stdout matches Some(s) ==> b.logs@[0] == s
            &&& b.artifacts@.len() == 0
        },
{
    if !raw.ok {
        let message = match raw.stderr {
            Some(s) => s,
            None => "lightpanda execution failed".to_string(),
        };
        return Err(AppError::Runner(message));
    }
    let result_json = match raw.result {
        Some(v) => v,
        None => JsonValue::Null,
    };
    let mut logs: Vec<String> = Vec::new();
    if let Some(s) = raw.stdout {
        logs.push(s);
    }
    Ok(BrowserRunResult { result_json, logs, artifacts: Vec::new() })
}

} // verus!
