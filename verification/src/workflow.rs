//! The automatic work loop: stages, the counters that decide when a bug
//! cycle is due, and the transitions taken after a success or a failure.

use vstd::prelude::*;

verus! {

/// File name under which the workflow state is kept by default.
pub const DEFAULT_WORKFLOW_STATE_PATH: &'static str = "RUN_STATE.json";

/// A stage of the work loop.
#[derive(Debug, Clone, Copy, PartialEq, Eq, Structural)]
pub enum WorkflowStage {
    Plan,
    Execute,
    Verify,
    BugScan,
    BugFix,
    DocSync,
    CommitPush,
    Cooldown,
    Blocked,
}

/// A suggestion for what to work on next.
#[derive(Debug, Clone)]
pub struct WorkflowSuggestion {
    pub title: String,
    pub priority: u8,
    pub rationale: String,
}

/// The persisted state of the work loop.
#[derive(Debug, Clone)]
pub struct WorkflowExecutionState {
    pub project: String,
    pub loop_enabled: bool,
    pub loop_iteration: u64,
    pub stage: WorkflowStage,
    pub bug_cycle_interval: u64,
    pub completed_since_bug_cycle: u64,
    pub consecutive_failures: u64,
    pub current_focus: String,
    pub current_objective: String,
    pub last_result_summary: String,
    pub next_action_hint: String,
    pub next_suggestions: Vec<WorkflowSuggestion>,
}

/// A bug cycle is due once enough work was completed since the last one,
/// or as soon as anything failed.
pub open spec fn bug_cycle_due(completed_since_bug_cycle: int, bug_cycle_interval: int, consecutive_failures: int) -> bool {
    completed_since_bug_cycle >= bug_cycle_interval || consecutive_failures > 0
}

/// The stage that follows `stage` after a success when no bug cycle is due.
pub open spec fn regular_successor(stage: WorkflowStage) -> WorkflowStage {
    match stage {
        WorkflowStage::Plan => WorkflowStage::Execute,
        WorkflowStage::Execute => WorkflowStage::Verify,
        WorkflowStage::Verify => WorkflowStage::DocSync,
        WorkflowStage::BugScan => WorkflowStage::BugFix,
        WorkflowStage::BugFix => WorkflowStage::CommitPush,
        WorkflowStage::DocSync => WorkflowStage::Cooldown,
        WorkflowStage::CommitPush => WorkflowStage::Cooldown,
        WorkflowStage::Cooldown => WorkflowStage::Plan,
        WorkflowStage::Blocked => WorkflowStage::Plan,
    }
}

/// `post` is `pre` after a failure reported with `summary`: the streak
/// grows by one, the summary is kept and the stage is the bug scan; nothing
/// else changes.
pub open spec fn is_failure_step(pre: WorkflowExecutionState, post: WorkflowExecutionState, summary: Seq<char>) -> bool {
    &&& post == (WorkflowExecutionState {
        consecutive_failures: (pre.consecutive_failures + 1) as u64,
        last_result_summary: post.last_result_summary,
        stage: WorkflowStage::BugScan,
        ..pre
    })
    &&& post.consecutive_failures == pre.consecutive_failures + 1
    &&& post.last_result_summary@ == summary
}

/// The state after `n` successes in a row.
pub open spec fn after_successes(s: WorkflowExecutionState, n: nat) -> WorkflowExecutionState
    decreases n,
{
    if n == 0 {
        s
    } else {
        after_successes(s, (n - 1) as nat).after_success()
    }
}

impl WorkflowExecutionState {
    /// Whether this state asks for a bug cycle.
    pub open spec fn wants_bug_cycle(&self) -> bool {
        bug_cycle_due(
            self.completed_since_bug_cycle as int,
            self.bug_cycle_interval as int,
            self.consecutive_failures as int,
        )
    }

    /// The state after one success, as a pure function of the state before.
    pub open spec fn after_success(self) -> WorkflowExecutionState {
        let completed = (self.completed_since_bug_cycle + 1) as u64;
        if completed >= self.bug_cycle_interval {
            WorkflowExecutionState {
                loop_iteration: (self.loop_iteration + 1) as u64,
                consecutive_failures: 0,
                completed_since_bug_cycle: completed,
                stage: WorkflowStage::BugScan,
                ..self
            }
        } else {
            WorkflowExecutionState {
                loop_iteration: (self.loop_iteration + 1) as u64,
                consecutive_failures: 0,
                completed_since_bug_cycle: if self.stage == WorkflowStage::BugFix { 0 } else { completed },
                stage: regular_successor(self.stage),
                ..self
            }
        }
    }

    /// A fresh state for `project`: loop off, in the planning stage, with a
    /// bug cycle due every three completed iterations.
    pub fn new(project: &str) -> (state: Self)
        ensures
            state.project@ == project@,
            !state.loop_enabled,
            state.loop_iteration == 0,
            state.stage == WorkflowStage::Plan,
            state.bug_cycle_interval == 3,
            state.completed_since_bug_cycle == 0,
            state.consecutive_failures == 0,
            state.current_focus@ == "建立自动执行工作流状态机骨架"@,
            state.current_objective@ == "初始化 workflow state 文件与阶段枚举"@,
            state.last_result_summary@ == "尚未开始自动循环"@,
            state.next_action_hint@ == "先进入 plan 阶段，读取目标文档并生成建议"@,
            state.next_suggestions@.len() == 0,
    {
        WorkflowExecutionState {
            project: project.to_string(),
            loop_enabled: false,
            loop_iteration: 0,
            stage: WorkflowStage::Plan,
            bug_cycle_interval: 3,
            completed_since_bug_cycle: 0,
            consecutive_failures: 0,
            current_focus: "建立自动执行工作流状态机骨架".to_string(),
            current_objective: "初始化 workflow state 文件与阶段枚举".to_string(),
            last_result_summary: "尚未开始自动循环".to_string(),
            next_action_hint: "先进入 plan 阶段，读取目标文档并生成建议".to_string(),
            next_suggestions: Vec::new(),
        }
    }

    /// Whether the loop should enter a bug cycle now.
    pub fn should_enter_bug_cycle(&self) -> (due: bool)
        ensures
            due == self.wants_bug_cycle(),
            self.completed_since_bug_cycle >= self.bug_cycle_interval ==> due,
            self.consecutive_failures > 0 ==> due,
            self.completed_since_bug_cycle < self.bug_cycle_interval && self.consecutive_failures == 0 ==> !due,
    {
        self.completed_since_bug_cycle >= self.bug_cycle_interval || self.consecutive_failures > 0
    }

    /// Records a success: counts the iteration, clears the failure streak and
    /// moves to the next stage, or to the bug scan when a bug cycle is due.
    pub fn advance_after_success(&mut self)
        requires
            old(self).loop_iteration < u64::MAX,
            old(self).completed_since_bug_cycle < u64::MAX,
        ensures
            *final(self) == old(self).after_success(),
    {
        self.loop_iteration = self.loop_iteration + 1;
        self.consecutive_failures = 0;
        self.completed_since_bug_cycle = self.completed_since_bug_cycle + 1;
        self.stage = if self.should_enter_bug_cycle() {
            WorkflowStage::BugScan
        } else {
            match self.stage {
                WorkflowStage::Plan => WorkflowStage::Execute,
                WorkflowStage::Execute => WorkflowStage::Verify,
                WorkflowStage::Verify => WorkflowStage::DocSync,
                WorkflowStage::BugScan => WorkflowStage::BugFix,
                WorkflowStage::BugFix => {
                    self.completed_since_bug_cycle = 0;
                    WorkflowStage::CommitPush
                },
                WorkflowStage::DocSync => WorkflowStage::Cooldown,
                WorkflowStage::CommitPush => WorkflowStage::Cooldown,
                WorkflowStage::Cooldown => WorkflowStage::Plan,
                WorkflowStage::Blocked => WorkflowStage::Plan,
            }
        };
    }

    /// Records a failure: extends the failure streak, keeps `summary` as the
    /// last result and sends the loop to the bug scan.
    pub fn mark_failure(&mut self, summary: &str)
        requires
            old(self).consecutive_failures < u64::MAX,
        ensures
            is_failure_step(*old(self), *final(self), summary@),
    {
        self.consecutive_failures = self.consecutive_failures + 1;
        self.last_result_summary = summary.to_string();
        self.stage = WorkflowStage::BugScan;
    }
}

/// A bug cycle is due exactly when the completed count has reached the
/// interval or a failure streak is running; and a success leads to the bug
/// scan exactly when the state it leaves behind asks for a bug cycle.
pub proof fn lemma_bug_cycle_due_when(s: WorkflowExecutionState)
    requires
        s.loop_iteration < u64::MAX,
        s.completed_since_bug_cycle < u64::MAX,
    ensures
        s.completed_since_bug_cycle >= s.bug_cycle_interval ==> s.wants_bug_cycle(),
        s.consecutive_failures > 0 ==> s.wants_bug_cycle(),
        s.completed_since_bug_cycle < s.bug_cycle_interval && s.consecutive_failures == 0 ==> !s.wants_bug_cycle(),
        (s.after_success().stage == WorkflowStage::BugScan) == s.after_success().wants_bug_cycle(),
        s.after_success().wants_bug_cycle() == (s.completed_since_bug_cycle + 1 >= s.bug_cycle_interval),
{
}

/// After a failure a bug cycle is due and the loop stands at the bug scan,
/// whatever the state before.
pub proof fn lemma_failure_forces_bug_cycle(pre: WorkflowExecutionState, post: WorkflowExecutionState, summary: Seq<char>)
    requires
        is_failure_step(pre, post, summary),
    ensures
        post.wants_bug_cycle(),
        post.stage == WorkflowStage::BugScan,
{
}

/// A success always counts one iteration and ends the failure streak; when
/// the completed count reaches the interval, the loop goes to the bug scan;
/// the loop never becomes blocked by a success, and the completed count is
/// cleared only when leaving the bug fix stage.
pub proof fn lemma_success_resets_failures(s: WorkflowExecutionState)
    requires
        s.loop_iteration < u64::MAX,
        s.completed_since_bug_cycle < u64::MAX,
    ensures
        s.after_success().loop_iteration == s.loop_iteration + 1,
        s.after_success().consecutive_failures == 0,
        s.completed_since_bug_cycle + 1 >= s.bug_cycle_interval
            ==> s.after_success().stage == WorkflowStage::BugScan,
        s.after_success().stage != WorkflowStage::Blocked,
        s.after_success().completed_since_bug_cycle == 0 ==> s.stage == WorkflowStage::BugFix,
        s.after_success().completed_since_bug_cycle != 0
            ==> s.after_success().completed_since_bug_cycle == s.completed_since_bug_cycle + 1,
{
}

/// Once the completed count has reached the interval, every further success
/// leaves the loop at the bug scan: only leaving the bug fix stage resets
/// the count, and that stage is never reached from there.
pub proof fn lemma_threshold_holds_bug_scan(s: WorkflowExecutionState, n: nat)
    requires
        s.completed_since_bug_cycle >= s.bug_cycle_interval,
        s.loop_iteration + n <= u64::MAX,
        s.completed_since_bug_cycle + n <= u64::MAX,
    ensures
        after_successes(s, n).completed_since_bug_cycle == s.completed_since_bug_cycle + n,
        after_successes(s, n).loop_iteration == s.loop_iteration + n,
        n > 0 ==> after_successes(s, n).stage == WorkflowStage::BugScan,
    decreases n,
{
    if n > 0 {
        lemma_threshold_holds_bug_scan(s, (n - 1) as nat);
    }
}

/// With no bug cycle due on the way, five successes take the loop from plan
/// through execute, verify, doc sync and cooldown back to plan.
pub proof fn lemma_regular_loop_returns_to_plan(s: WorkflowExecutionState)
    requires
        s.stage == WorkflowStage::Plan,
        s.completed_since_bug_cycle + 5 < s.bug_cycle_interval,
        s.loop_iteration + 5 <= u64::MAX,
    ensures
        after_successes(s, 1).stage == WorkflowStage::Execute,
        after_successes(s, 2).stage == WorkflowStage::Verify,
        after_successes(s, 3).stage == WorkflowStage::DocSync,
        after_successes(s, 4).stage == WorkflowStage::Cooldown,
        after_successes(s, 5).stage == WorkflowStage::Plan,
        after_successes(s, 5).completed_since_bug_cycle == s.completed_since_bug_cycle + 5,
{
    reveal_with_fuel(after_successes, 6);
}

/// A bug scan entered below the threshold (after a failure) runs bug fix and
/// commit, which clears the completed count, then cooldown and plan.
pub proof fn lemma_bug_cycle_completes(s: WorkflowExecutionState)
    requires
        s.stage == WorkflowStage::BugScan,
        s.completed_since_bug_cycle + 2 < s.bug_cycle_interval,
        s.bug_cycle_interval > 2,
        s.loop_iteration + 4 <= u64::MAX,
    ensures
        after_successes(s, 1).stage == WorkflowStage::BugFix,
        after_successes(s, 2).stage == WorkflowStage::CommitPush,
        after_successes(s, 2).completed_since_bug_cycle == 0,
        after_successes(s, 3).stage == WorkflowStage::Cooldown,
        after_successes(s, 4).stage == WorkflowStage::Plan,
        after_successes(s, 4).consecutive_failures == 0,
{
    reveal_with_fuel(after_successes, 5);
}

} // verus!
