//! Service configuration and its defaults.

use vstd::prelude::*;

verus! {

/// Which runner the first-generation service uses.
#[derive(Debug, Clone, Copy, PartialEq, Eq, Structural)]
pub enum RunnerModeConfig {
    Fake,
    Browser,
}

/// Service configuration.
#[derive(Debug, Clone)]
pub struct AppConfig {
    pub listen_addr: String,
    pub data_dir: String,
    pub db_path: String,
    pub artifacts_dir: String,
    pub max_concurrent_tasks: usize,
    pub default_timeout_seconds: i64,
    pub runner_mode: RunnerModeConfig,
}

impl Default for AppConfig {
    /// Listens on 127.0.0.1:8080 and keeps data under `data/`: the database
    /// at `data/app.db`, artifacts in `data/artifacts`; four tasks at once,
    /// sixty seconds per task, the fake runner.
    fn default() -> (c: AppConfig)
        ensures
            c.listen_addr@ == "127.0.0.1:8080"@,
            c.data_dir@ == "data"@,
            c.db_path@ == "data"@ + "/app.db"@,
            c.artifacts_dir@ == "data"@ + "/artifacts"@,
            c.max_concurrent_tasks == 4,
            c.default_timeout_seconds == 60,
            c.runner_mode == RunnerModeConfig::Fake,
    {
        let data_dir = "data".to_string();
        let artifacts_dir = data_dir.clone().concat("/artifacts");
        let db_path = data_dir.clone().concat("/app.db");
        AppConfig {
            listen_addr: "127.0.0.1:8080".to_string(),
            data_dir,
            db_path,
            artifacts_dir,
            max_concurrent_tasks: 4,
            default_timeout_seconds: 60,
            runner_mode: RunnerModeConfig::Fake,
        }
    }
}

} // verus!
