use osai::apply::{
    ApplyAuthorizationReport, ApplyCoreOutput, ApplyResult, ApplyStepAuthorization, ApplyStepExecution, PlanStepRun,
    StepDecision,
};
use osai::broker::PolicyMode;
use osai::receipt::Receipt;
use osai::report::{
    apply_output_lines, authorization_step_text, authorization_text, decision_text, execution_text, plan_step_text,
    summary_text,
};

fn authorization() -> ApplyAuthorizationReport {
    ApplyAuthorizationReport {
        plan_id: "p".to_string(),
        plan_path: "/p/plan.yml".to_string(),
        policy_path: "/p/policy.yml".to_string(),
        dry_run: false,
        steps: vec![ApplyStepAuthorization {
            step_id: "step-1".to_string(),
            action: "FilesList".to_string(),
            allowed: true,
            approval: false,
            mode: "Allow".to_string(),
        }],
        denied_count: 0,
        approval_required_count: 0,
    }
}

fn execution(denied: bool, skipped: bool, error: Option<&str>) -> ApplyStepExecution {
    ApplyStepExecution {
        step_id: "s".to_string(),
        action: "FilesMove".to_string(),
        status: "Failed".to_string(),
        error: error.map(|e| e.to_string()),
        denied,
        approval_skipped: skipped,
        approved_by_cli: false,
    }
}

fn result(dry_run: bool) -> ApplyResult {
    ApplyResult {
        status: "Executed".to_string(),
        executed: 1,
        skipped: 2,
        denied: 3,
        approval_required: 4,
        failed: 5,
        approved_steps: vec![],
        dry_run,
        error: None,
    }
}

#[test]
fn authorization_lines_name_each_step() {
    assert_eq!(
        authorization_step_text(&authorization().steps[0]),
        "step=step-1 action=FilesList allowed=true approval=false mode=Allow"
    );
    assert_eq!(
        authorization_text(&authorization()),
        vec![
            "Authorization summary for plan: /p/plan.yml".to_string(),
            "policy: /p/policy.yml".to_string(),
            "step=step-1 action=FilesList allowed=true approval=false mode=Allow".to_string(),
            "denied=0 approval_required=0".to_string(),
        ]
    );
}

#[test]
fn execution_lines_in_both_modes() {
    assert_eq!(execution_text(&execution(true, false, None), false), "step=s action=FilesMove execution=Denied reason=\"Policy denied\"");
    assert_eq!(
        execution_text(&execution(false, true, None), false),
        "step=s action=FilesMove execution=Skipped reason=\"requires user approval\""
    );
    assert_eq!(
        execution_text(&execution(false, false, Some("boom")), false),
        "step=s action=FilesMove execution=Failed error=\"boom\""
    );
    assert_eq!(execution_text(&execution(true, false, None), true), "{\"step\":\"s\",\"action\":\"FilesMove\",\"status\":\"Denied\"}");
    assert_eq!(
        execution_text(&execution(false, true, None), true),
        "{\"step\":\"s\",\"action\":\"FilesMove\",\"status\":\"Skipped\",\"reason\":\"requires approval\"}"
    );
    assert_eq!(
        execution_text(&execution(false, false, None), true),
        "{\"step\":\"s\",\"action\":\"FilesMove\",\"status\":\"Failed\",\"error\":\"\"}"
    );
}

#[test]
fn summary_line_counts() {
    assert_eq!(
        summary_text(&result(false)),
        "Apply complete: executed=1 skipped=2 denied=3 approval_required=4 failed=5"
    );
}

#[test]
fn full_reports() {
    let out = ApplyCoreOutput {
        authorization: authorization(),
        executions: vec![execution(true, false, None)],
        result: result(false),
        receipt_id: Some("r-1".to_string()),
    };
    let text = apply_output_lines(&out, false);
    assert_eq!(text.len(), 7);
    assert_eq!(text[4], "step=s action=FilesMove execution=Denied reason=\"Policy denied\"");
    assert_eq!(text[5], "Receipt written: r-1");
    assert_eq!(text[6], "Apply complete: executed=1 skipped=2 denied=3 approval_required=4 failed=5");
    let json = apply_output_lines(&out, true);
    assert_eq!(
        json,
        vec![
            "{\"step\":\"s\",\"action\":\"FilesMove\",\"status\":\"Denied\"}".to_string(),
            "Receipt written: r-1".to_string(),
        ]
    );
    let dry = ApplyCoreOutput { authorization: authorization(), executions: vec![], result: result(true), receipt_id: None };
    assert_eq!(apply_output_lines(&dry, true), vec!["Dry run complete; no steps executed.".to_string()]);
    assert_eq!(apply_output_lines(&dry, false).last().unwrap(), "Dry run complete; no steps executed.");
}

#[test]
fn plan_run_lines() {
    let d = StepDecision {
        step_id: "a".to_string(),
        action_name: "ShellRunSandboxed".to_string(),
        allowed: false,
        requires_approval: false,
        policy_mode: PolicyMode::Deny,
        reason: "no".to_string(),
    };
    assert_eq!(decision_text(&d), "step=a action=ShellRunSandboxed allowed=false approval=false mode=Deny reason=\"no\"");
    let r = PlanStepRun {
        step_id: "b".to_string(),
        action_name: "FilesMove".to_string(),
        allowed: true,
        requires_approval: true,
        policy_mode: PolicyMode::Ask,
        reason: "ask".to_string(),
        approved_by_cli: true,
        status: "Failed".to_string(),
        error: "unsupported".to_string(),
        broker_receipt: Receipt::new("osai-agent", "FilesMove"),
        execution_receipt: None,
    };
    assert_eq!(
        plan_step_text(&r),
        vec![
            "step=b".to_string(),
            "authorization: allowed=true approval=true mode=Ask reason=\"ask\"".to_string(),
            "approval: source=cli step=b".to_string(),
            "execution: status=Failed action=FilesMove error=\"unsupported\"".to_string(),
        ]
    );
}
