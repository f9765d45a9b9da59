# auto_open_browser

The control-plane logic of a browser-automation service, verified with Verus.

- `src/` is the library. `workflow` holds the work-loop state machine;
  `task` the task model, creation rules and the mapping to stored rows;
  `runner` the runner kinds and settings, with `runner::fake`,
  `runner::fake_runner`, `runner::browser_runner` and `runner::lightpanda`
  (its input checks, the fetch command, its reports and its process table);
  `scheduler` the closing of a task after its run; `json` the JSON values the
  service builds and reads; `text` whitespace trimming, prefixes and decimal
  text; `config` and `db` the defaults and database location.
- `app/` is the service around it: the HTTP API (axum), SQLite storage
  (rusqlite, sqlx), the dispatcher and the runners' processes and timers
  (tokio), and the workflow state file (serde).
- `tests/` exercises the library on concrete values.
