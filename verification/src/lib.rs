//! Control-plane logic of a browser-automation service: the task model and
//! its storage rows, the runners' decisions and reports, the dispatcher's
//! closing of tasks, and the workflow state machine of the work loop.

pub mod config;
pub mod db;
pub mod json;
pub mod runner;
pub mod scheduler;
pub mod task;
pub mod text;
pub mod workflow;
