//! What the Lightpanda adapter sends and receives.

use vstd::prelude::*;
use crate::json::JsonValue;

verus! {

/// The normalized result of a browser run.
#[derive(Debug)]
pub struct BrowserRunResult {
    pub result_json: JsonValue,
    pub logs: Vec<String>,
    pub artifacts: Vec<String>,
}

/// The command handed to the Lightpanda CLI.
#[derive(Debug)]
pub struct LightpandaCommand {
    pub steps: JsonValue,
    pub timeout_seconds: i64,
}

/// What the Lightpanda CLI reports of a run.
#[derive(Debug)]
pub struct LightpandaRawOutput {
    pub ok: bool,
    pub stdout: Option<String>,
    pub stderr: Option<String>,
    pub result: Option<JsonValue>,
}

} // verus!
