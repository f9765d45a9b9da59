use auto_open_browser::workflow::{WorkflowExecutionState, WorkflowStage, DEFAULT_WORKFLOW_STATE_PATH};

#[test]
fn workflow_state_enters_bug_cycle_after_threshold() {
    let mut state = WorkflowExecutionState::new("AutoOpenBrowser");
    state.completed_since_bug_cycle = 3;
    assert!(state.should_enter_bug_cycle());
    state.advance_after_success();
    assert_eq!(state.stage, WorkflowStage::BugScan);
}

#[test]
fn workflow_state_failure_redirects_to_bug_scan() {
    let mut state = WorkflowExecutionState::new("AutoOpenBrowser");
    state.stage = WorkflowStage::Execute;
    state.mark_failure("integration test failed");
    assert_eq!(state.stage, WorkflowStage::BugScan);
    assert_eq!(state.consecutive_failures, 1);
    assert_eq!(state.last_result_summary, "integration test failed");
}

#[test]
fn new_state_starts_planning_with_interval_three() {
    let state = WorkflowExecutionState::new("AutoOpenBrowser");
    assert_eq!(state.project, "AutoOpenBrowser");
    assert!(!state.loop_enabled);
    assert_eq!(state.loop_iteration, 0);
    assert_eq!(state.stage, WorkflowStage::Plan);
    assert_eq!(state.bug_cycle_interval, 3);
    assert_eq!(state.completed_since_bug_cycle, 0);
    assert_eq!(state.consecutive_failures, 0);
    assert_eq!(state.current_focus, "建立自动执行工作流状态机骨架");
    assert_eq!(state.current_objective, "初始化 workflow state 文件与阶段枚举");
    assert_eq!(state.last_result_summary, "尚未开始自动循环");
    assert_eq!(state.next_action_hint, "先进入 plan 阶段，读取目标文档并生成建议");
    assert!(state.next_suggestions.is_empty());
    assert!(!state.should_enter_bug_cycle());
    assert_eq!(DEFAULT_WORKFLOW_STATE_PATH, "RUN_STATE.json");
}

#[test]
fn regular_loop_returns_to_plan_after_five_successes() {
    let mut state = WorkflowExecutionState::new("p");
    state.bug_cycle_interval = 10;
    let expected = [
        WorkflowStage::Execute,
        WorkflowStage::Verify,
        WorkflowStage::DocSync,
        WorkflowStage::Cooldown,
        WorkflowStage::Plan,
    ];
    for stage in expected {
        state.advance_after_success();
        assert_eq!(state.stage, stage);
    }
    assert_eq!(state.loop_iteration, 5);
    assert_eq!(state.completed_since_bug_cycle, 5);
}

#[test]
fn failure_then_successes_run_the_bug_cycle() {
    let mut state = WorkflowExecutionState::new("p");
    state.mark_failure("broken");
    assert!(state.should_enter_bug_cycle());
    state.advance_after_success();
    assert_eq!(state.consecutive_failures, 0);
    assert_eq!(state.stage, WorkflowStage::BugFix);
    state.advance_after_success();
    assert_eq!(state.stage, WorkflowStage::CommitPush);
    assert_eq!(state.completed_since_bug_cycle, 0);
    state.advance_after_success();
    assert_eq!(state.stage, WorkflowStage::Cooldown);
    state.advance_after_success();
    assert_eq!(state.stage, WorkflowStage::Plan);
    assert_eq!(state.loop_iteration, 4);
}

#[test]
fn threshold_keeps_the_loop_at_bug_scan() {
    let mut state = WorkflowExecutionState::new("p");
    state.completed_since_bug_cycle = 3;
    for _ in 0..4 {
        state.advance_after_success();
        assert_eq!(state.stage, WorkflowStage::BugScan);
    }
    assert_eq!(state.completed_since_bug_cycle, 7);
}

#[test]
fn third_success_reaches_the_threshold() {
    let mut state = WorkflowExecutionState::new("p");
    state.advance_after_success();
    state.advance_after_success();
    assert_eq!(state.stage, WorkflowStage::Verify);
    state.advance_after_success();
    assert_eq!(state.stage, WorkflowStage::BugScan);
    assert_eq!(state.completed_since_bug_cycle, 3);
}

#[test]
fn blocked_stage_resumes_at_plan() {
    let mut state = WorkflowExecutionState::new("p");
    state.stage = WorkflowStage::Blocked;
    state.advance_after_success();
    assert_eq!(state.stage, WorkflowStage::Plan);
}
