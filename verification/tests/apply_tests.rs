use osai::apply::{
    apply_validation_failure, authorize_plan, authorize_plan_preview, run_apply, run_apply_core, run_plan,
    step_to_request,
};
use osai::broker::{PolicyMode, ToolPolicy};
use osai::json::{JsonMap, JsonValue};
use osai::plan::{ActionKind, ApprovalMode, OsaiPlan, PlanStep, RiskLevel};
use osai::receipt::{ReceiptStatus, ReceiptStore};

fn uuid_to_string(id: u128) -> String {
    uuid::Uuid::from_u128(id).to_string()
}

fn map_of(pairs: Vec<(&str, JsonValue)>) -> JsonMap {
    JsonMap { entries: pairs.into_iter().map(|(k, v)| (k.to_string(), v)).collect() }
}

fn field<'a>(v: &'a JsonValue, key: &str) -> Option<&'a JsonValue> {
    match v {
        JsonValue::Object(m) => m.get(key),
        _ => None,
    }
}

fn step(id: &str, action: ActionKind, approval: bool, inputs: JsonMap) -> PlanStep {
    PlanStep { id: id.to_string(), action, description: format!("step {}", id), requires_approval: approval, inputs }
}

fn plan_with(steps: Vec<PlanStep>, risk: RiskLevel, approval: ApprovalMode) -> OsaiPlan {
    OsaiPlan {
        version: "0.1".to_string(),
        id: uuid::Uuid::parse_str("550e8400-e29b-41d4-a716-446655440101").unwrap().as_u128(),
        title: "Test Plan".to_string(),
        description: None,
        actor: "user".to_string(),
        risk,
        approval,
        steps,
        rollback: None,
        metadata: JsonMap::new(),
    }
}

/// The path each step lists, taken to resolve to itself.
fn targets(plan: &OsaiPlan) -> Vec<Option<String>> {
    plan.steps
        .iter()
        .map(|s| match s.inputs.get("path") {
            Some(JsonValue::Str(p)) => Some(p.clone()),
            _ => None,
        })
        .collect()
}

/// Roots taken to resolve to themselves.
fn resolved(roots: &[String]) -> Vec<Option<String>> {
    roots.iter().map(|r| Some(r.clone())).collect()
}

fn store() -> ReceiptStore {
    ReceiptStore::new("/tmp/osai-test-receipts")
}

fn allow_all_policy() -> ToolPolicy {
    let mut p = ToolPolicy::default_secure();
    p.default_mode = PolicyMode::Allow;
    p.action_modes.insert("BrowserOpenUrl".to_string(), PolicyMode::Allow);
    p
}

fn failing_browser_plan() -> OsaiPlan {
    let inputs = map_of(vec![("url", JsonValue::Str("https://example.com".to_string()))]);
    plan_with(vec![step("step-fails", ActionKind::BrowserOpenUrl, false, inputs)], RiskLevel::Low, ApprovalMode::Auto)
}

fn mixed_plan() -> OsaiPlan {
    plan_with(
        vec![
            step("list", ActionKind::FilesList, false, map_of(vec![("path", JsonValue::Str("/tmp".to_string()))])),
            step(
                "move",
                ActionKind::FilesMove,
                true,
                map_of(vec![("source", JsonValue::Str("/tmp/a".to_string()))]),
            ),
            step("chat", ActionKind::ModelChat, false, JsonMap::new()),
        ],
        RiskLevel::Low,
        ApprovalMode::Ask,
    )
}

#[test]
fn test_run_apply_core_returns_output_for_step_execution_failure() {
    let plan = failing_browser_plan();
    let run = run_apply_core(
        &plan, "/p/plan.yml", "/p/policy.yml", allow_all_policy(), store(), vec![], &vec![], false, None, false, None, &targets(&plan), &Vec::new())
    .ok()
    .expect("step-level execution failures should be represented in the output");
    let output = &run.output;
    assert_eq!(output.result.failed, 1);
    assert_eq!(output.result.status, "Failed");
    assert_eq!(output.result.error.as_deref(), Some("1 step(s) failed"));
    assert_eq!(output.executions.len(), 1);
    assert_eq!(output.executions[0].step_id, "step-fails");
    assert_eq!(output.executions[0].status, "Failed");
    assert!(output.executions[0].error.as_deref().unwrap_or_default().contains("not executable"));
    assert!(output.receipt_id.is_some());
    let receipts = run.authorization_receipts.len() + run.execution_receipts.len() + 1;
    assert!(receipts >= 2, "expected executor and apply receipts, got {}", receipts);
}

#[test]
fn test_run_apply_still_returns_err_for_step_execution_failure() {
    let plan = failing_browser_plan();
    let (run, end) = run_apply(
        &plan, "/p/plan.yml", "/p/policy.yml", allow_all_policy(), store(), vec![], &vec![], false, None, false, None, &targets(&plan), &Vec::new())
    .ok()
    .unwrap();
    let err = end.expect_err("failed steps should end the command with an error");
    assert!(err.contains("1 step(s) failed"));
    assert_eq!(run.execution_receipts.len(), 1);
    assert_eq!(run.apply_receipt.status, ReceiptStatus::Failed);
}

#[test]
fn test_apply_approve_all_does_not_override_denied() {
    let inputs = map_of(vec![("command", JsonValue::Str("ls".to_string()))]);
    let plan = plan_with(vec![step("step-1", ActionKind::ShellRunSandboxed, true, inputs)], RiskLevel::Critical, ApprovalMode::Ask);
    let mut policy = ToolPolicy::default_secure();
    policy.default_mode = PolicyMode::Deny;
    let (run, end) = run_apply(
        &plan, "/p/plan.yml", "/p/policy.yml", policy, store(), vec![], &vec![], true, None, false, None, &targets(&plan), &Vec::new())
    .ok()
    .unwrap();
    assert_eq!(run.output.result.executed, 0);
    assert_eq!(run.output.result.denied, 1);
    assert!(run.output.executions[0].denied);
    assert!(run.execution_receipts.is_empty());
    assert!(end.is_ok());
}

#[test]
fn apply_skips_steps_awaiting_approval_and_runs_the_rest() {
    let plan = mixed_plan();
    let run = run_apply_core(
        &plan, "/p/plan.yml", "/p/policy.yml", ToolPolicy::default_secure(), store(), vec!["/tmp".to_string()],
        &vec![], false, None, false, None, &targets(&plan), &resolved(&["/tmp".to_string()]))
    .ok()
    .unwrap();
    let out = &run.output;
    assert_eq!(out.authorization.approval_required_count, 1);
    assert_eq!(out.authorization.denied_count, 0);
    assert_eq!(out.result.executed, 2);
    assert_eq!(out.result.skipped, 1);
    assert_eq!(out.result.failed, 0);
    assert_eq!(out.result.status, "Executed");
    assert!(out.executions[1].approval_skipped);
    assert_eq!(out.executions[1].error.as_deref(), Some("requires user approval"));
    assert_eq!(run.execution_receipts.len(), 2);
    assert_eq!(out.receipt_id, Some(uuid_to_string(run.apply_receipt.id)));
}

#[test]
fn apply_runs_steps_approved_by_id() {
    let plan = mixed_plan();
    let run = run_apply_core(
        &plan, "/p/plan.yml", "/p/policy.yml", ToolPolicy::default_secure(), store(), vec!["/tmp".to_string()],
        &vec!["move".to_string()], false, None, false, None, &targets(&plan), &resolved(&["/tmp".to_string()]),
    )
    .ok()
    .unwrap();
    let out = &run.output;
    assert!(out.executions[1].approved_by_cli);
    assert_eq!(out.executions[1].status, "Failed");
    assert_eq!(out.result.failed, 1);
    assert!(out.result.approved_steps.is_empty());
    assert_eq!(out.result.executed + out.result.skipped + out.result.failed, 3);
}

#[test]
fn test_apply_dry_run_does_not_execute() {
    let plan = mixed_plan();
    let run = run_apply_core(
        &plan, "/p/plan.yml", "/p/policy.yml", ToolPolicy::default_secure(), store(), vec![], &vec![], true, None, true,
        None, &targets(&plan), &Vec::new())
    .ok()
    .unwrap();
    assert!(run.output.executions.is_empty());
    assert!(run.execution_receipts.is_empty());
    assert_eq!(run.output.result.executed, 0);
    assert!(run.output.result.dry_run);
    assert_eq!(run.output.result.approval_required, 1);
    let outputs = run.apply_receipt.outputs_redacted.as_ref().unwrap();
    assert!(matches!(field(outputs, "dry_run"), Some(JsonValue::Bool(true))));
    assert!(matches!(field(outputs, "approval_required_count"), Some(JsonValue::Number(n)) if n == "1"));
    assert!(matches!(field(outputs, "plan_path"), Some(JsonValue::Str(p)) if p == "/p/plan.yml"));
}

#[test]
fn test_apply_rejects_invalid_plan() {
    let mut plan = mixed_plan();
    plan.title = "".to_string();
    let failure = run_apply_core(
        &plan, "/p/plan.yml", "/p/policy.yml", ToolPolicy::default_secure(), store(), vec![], &vec![], false, None, false,
        None, &targets(&plan), &Vec::new())
    .err()
    .unwrap();
    assert_eq!(failure.message, "plan validation failed: title must not be empty");
    assert_eq!(failure.receipt.as_ref().unwrap().status, ReceiptStatus::Failed);
    assert!(failure.authorization_receipts.is_empty());
    assert_eq!(failure.receipt.as_ref().unwrap().error.as_deref(), Some("Plan validation failed: title must not be empty"));
    let e = plan.validate().unwrap_err();
    let f2 = apply_validation_failure(&plan, "/p/plan.yml", "/p/policy.yml", &vec![], false, false, &e);
    assert_eq!(f2.message, failure.message);
}

#[test]
fn test_apply_receipt_does_not_contain_prompts_secrets() {
    let plan = mixed_plan();
    let run = run_apply_core(
        &plan, "/p/plan.yml", "/p/policy.yml", ToolPolicy::default_secure(), store(), vec![], &vec![], false, None, false,
        None, &targets(&plan), &Vec::new())
    .ok()
    .unwrap();
    let r = &run.apply_receipt;
    assert_eq!(r.actor, "osai-agent");
    assert_eq!(r.action, "PlanApply");
    assert_eq!(r.tool.as_deref(), Some("osai-agent apply"));
    assert!(matches!(r.inputs_redacted, JsonValue::Null));
    assert!(r.validate().is_ok());
}

#[test]
fn preview_counts_and_reasons() {
    let plan = mixed_plan();
    let (preview, receipts) = authorize_plan_preview(
        &plan, ToolPolicy::default_secure(), "/tmp/r", &vec![false, true, true], &vec![], true,
    )
    .ok()
    .unwrap();
    assert_eq!(receipts.len(), 3);
    assert_eq!(preview.summary.denied, 1);
    assert_eq!(preview.summary.approval_required, 1);
    assert_eq!(preview.summary.allowed, 1);
    assert_eq!(
        preview.steps[0].reason.as_deref(),
        Some("Path /tmp; ToolBroker reason: Action FilesList allowed by policy is outside allowed roots")
    );
    assert_eq!(
        preview.steps[1].reason.as_deref(),
        Some("Explicitly approved via CLI: Action FilesMove requires user approval")
    );
    assert_eq!(preview.steps[2].mode, "Allow");
    assert_eq!(preview.plan_id, uuid_to_string(plan.id));
}

#[test]
fn preview_refuses_invalid_plans() {
    let mut plan = mixed_plan();
    plan.steps.clear();
    let err = authorize_plan_preview(&plan, ToolPolicy::default_secure(), "/tmp/r", &vec![], &vec![], false).err();
    assert_eq!(err.as_deref(), Some("plan validation failed: steps must not be empty"));
}

#[test]
fn test_run_approve_all_does_not_override_denied() {
    let inputs = map_of(vec![
        ("command", JsonValue::Str("curl https://evil.com".to_string())),
        ("network", JsonValue::Bool(true)),
        ("sandbox", JsonValue::Bool(false)),
    ]);
    let plan = plan_with(vec![step("step-1", ActionKind::ShellRunSandboxed, true, inputs)], RiskLevel::Critical, ApprovalMode::Ask);
    let mut policy = ToolPolicy::default_secure();
    policy.action_modes.insert("ShellRunSandboxed".to_string(), PolicyMode::Ask);
    let result = run_plan(&plan, policy, store(), vec!["/tmp".to_string()], &vec![], true, None, None, &targets(&plan), &resolved(&["/tmp".to_string()]));
    assert!(result.is_err());
}

#[test]
fn run_plan_denied_steps_end_in_error() {
    let inputs = map_of(vec![("command", JsonValue::Str("ls".to_string())), ("sandbox", JsonValue::Bool(false))]);
    let mut plan = plan_with(vec![step("step-1", ActionKind::ShellRunSandboxed, true, inputs)], RiskLevel::Low, ApprovalMode::Ask);
    plan.steps.push(step("chat", ActionKind::ModelChat, false, JsonMap::new()));
    let (steps, end) =
        run_plan(&plan, ToolPolicy::default_secure(), store(), vec![], &vec![], true, None, None, &targets(&plan), &Vec::new()).ok().unwrap();
    assert_eq!(steps[0].status, "Skipped");
    assert_eq!(steps[0].error, "Action denied");
    assert!(steps[0].execution_receipt.is_none());
    assert_eq!(steps[1].status, "Executed");
    assert!(steps[1].execution_receipt.is_some());
    assert_eq!(end, Err("authorization failed: one or more steps were denied".to_string()));
}

#[test]
fn run_plan_unapproved_steps_are_skipped() {
    let plan = mixed_plan();
    let (steps, end) =
        run_plan(
            &plan, ToolPolicy::default_secure(), store(), vec!["/tmp".to_string()], &vec![], false, None, None,
            &targets(&plan), &resolved(&["/tmp".to_string()]),
        )
            .ok()
            .unwrap();
    assert_eq!(steps[1].error, "Execution skipped: requires user approval");
    assert!(!steps[1].approved_by_cli);
    assert!(end.is_ok());
    let (steps, end) = run_plan(
        &plan, ToolPolicy::default_secure(), store(), vec!["/tmp".to_string()], &vec!["move".to_string()], false, None,
        None, &targets(&plan), &resolved(&["/tmp".to_string()]),
    )
    .ok()
    .unwrap();
    assert!(steps[1].approved_by_cli);
    assert_eq!(steps[1].status, "Failed");
    assert_eq!(end, Err("execution failed: one or more steps failed".to_string()));
}

#[test]
fn authorize_plan_reports_denials() {
    let inputs = map_of(vec![("command", JsonValue::Str("ls".to_string()))]);
    let plan = plan_with(vec![step("s", ActionKind::ShellRunSandboxed, true, inputs)], RiskLevel::Low, ApprovalMode::Ask);
    let a = authorize_plan(&plan, ToolPolicy::default_secure(), "/tmp/r").ok().unwrap();
    assert!(a.any_denied);
    assert_eq!(a.receipts.len(), 1);
    assert_eq!(a.receipts[0].status, ReceiptStatus::Denied);
    let a = authorize_plan(&mixed_plan(), ToolPolicy::default_secure(), "/tmp/r").ok().unwrap();
    assert!(!a.any_denied);
}

#[test]
fn step_requests_carry_the_plan_and_the_step() {
    let plan = mixed_plan();
    let r = step_to_request(&plan, &plan.steps[0]);
    assert_eq!(r.plan_id, Some(plan.id));
    assert_eq!(r.step_id.as_deref(), Some("list"));
    assert_eq!(r.actor, "user");
    assert!(matches!(r.inputs.get("path"), Some(JsonValue::Str(p)) if p == "/tmp"));
}

#[test]
fn test_apply_model_router_url_rejected_if_not_loopback() {
    let plan = plan_with(vec![step("step-1", ActionKind::ModelChat, false, JsonMap::new())], RiskLevel::Low, ApprovalMode::Auto);
    let failure = run_apply(
        &plan, "/p/plan.yml", "/p/policy.yml", allow_all_policy(), store(), vec![], &vec![], false,
        Some("http://example.com:8088"), false, None, &targets(&plan), &Vec::new())
    .err()
    .expect("a non-loopback model router URL is refused");
    assert_eq!(
        failure.message,
        "invalid model router URL: Model router URL must be loopback only (127.0.0.1 or localhost): http://example.com:8088"
    );
    assert!(failure.receipt.is_none());
    assert_eq!(failure.authorization_receipts.len(), 1);
    // A dry run never reaches the executor, so the URL is not checked.
    assert!(run_apply(
        &plan, "/p/plan.yml", "/p/policy.yml", allow_all_policy(), store(), vec![], &vec![], false,
        Some("http://example.com:8088"), true, None, &targets(&plan), &Vec::new())
    .is_ok());
    // A loopback URL is accepted.
    assert!(run_apply(
        &plan, "/p/plan.yml", "/p/policy.yml", allow_all_policy(), store(), vec![], &vec![], false,
        Some("http://127.0.0.1:8088"), false, None, &targets(&plan), &Vec::new())
    .is_ok());
}

#[test]
fn run_plan_refuses_non_loopback_router() {
    let plan = plan_with(vec![step("step-1", ActionKind::ModelChat, false, JsonMap::new())], RiskLevel::Low, ApprovalMode::Auto);
    let err = run_plan(&plan, allow_all_policy(), store(), vec![], &vec![], false, Some("http://10.0.0.1:8088"), None, &targets(&plan), &Vec::new())
        .err()
        .unwrap();
    assert!(err.starts_with("invalid model router URL: "));
    assert!(run_plan(&plan, allow_all_policy(), store(), vec![], &vec![], false, Some("http://localhost:8088"), None, &targets(&plan), &Vec::new()).is_ok());
}

#[test]
fn receipts_record_each_step_with_secrets_withheld() {
    let inputs = map_of(vec![
        ("path", JsonValue::Str("/tmp".to_string())),
        ("api_key", JsonValue::Str("sk-123".to_string())),
    ]);
    let plan = plan_with(vec![step("list", ActionKind::FilesList, false, inputs)], RiskLevel::Low, ApprovalMode::Auto);
    let run = run_apply_core(
        &plan, "/p/plan.yml", "/p/policy.yml", ToolPolicy::default_secure(), store(), vec!["/tmp".to_string()],
        &vec![], false, None, false, None, &targets(&plan), &resolved(&["/tmp".to_string()]))
    .ok()
    .unwrap();
    let broker = &run.authorization_receipts[0];
    assert_eq!(broker.tool.as_deref(), Some("ToolBroker"));
    assert!(broker.outputs_redacted.is_none());
    let broker_inputs = field(&broker.inputs_redacted, "inputs").unwrap();
    assert!(matches!(field(broker_inputs, "api_key"), Some(JsonValue::Str(s)) if s == "[REDACTED]"));
    assert!(matches!(field(broker_inputs, "path"), Some(JsonValue::Str(s)) if s == "/tmp"));
    assert!(matches!(field(&broker.inputs_redacted, "action"), Some(JsonValue::Str(s)) if s == "FilesList"));
    let exec = &run.execution_receipts[0];
    assert_eq!(exec.tool.as_deref(), Some("ToolExecutor"));
    assert_eq!(exec.approval, "Allow");
    assert_eq!(exec.status, ReceiptStatus::Executed);
    assert!(matches!(field(&exec.inputs_redacted, "api_key"), Some(JsonValue::Str(s)) if s == "[REDACTED]"));
    assert!(matches!(exec.outputs_redacted, Some(JsonValue::Array(ref xs)) if xs.is_empty()));
    assert!(exec.error.is_none());
}

#[test]
fn listing_outside_the_executor_roots_fails() {
    let inputs = map_of(vec![("path", JsonValue::Str("/h/Downloads-evil".to_string()))]);
    let plan = plan_with(vec![step("list", ActionKind::FilesList, false, inputs)], RiskLevel::Low, ApprovalMode::Auto);
    let roots = vec!["/h/Downloads".to_string()];
    let run = run_apply_core(
        &plan, "/p/plan.yml", "/p/policy.yml", ToolPolicy::default_secure(), store(), roots.clone(), &vec![], false,
        None, false, None, &targets(&plan), &resolved(&roots),
    )
    .ok()
    .unwrap();
    assert_eq!(run.output.executions[0].status, "Failed");
    assert_eq!(
        run.output.executions[0].error.as_deref(),
        Some("Path '/h/Downloads-evil' is not within allowed roots")
    );
    // With no roots at all, nothing is listed either.
    let run = run_apply_core(
        &plan, "/p/plan.yml", "/p/policy.yml", ToolPolicy::default_secure(), store(), vec![], &vec![], false, None,
        false, None, &targets(&plan), &Vec::new(),
    )
    .ok()
    .unwrap();
    assert_eq!(run.output.result.failed, 1);
    // A path that does not resolve is not listed.
    let run = run_apply_core(
        &plan, "/p/plan.yml", "/p/policy.yml", ToolPolicy::default_secure(), store(), roots.clone(), &vec![], false,
        None, false, None, &vec![None], &resolved(&roots),
    )
    .ok()
    .unwrap();
    assert_eq!(run.output.result.failed, 1);
}

#[test]
fn approving_changes_only_the_reason_of_steps_needing_approval() {
    let plan = mixed_plan();
    let flags = vec![true, true, true];
    let (a, _) = authorize_plan_preview(&plan, ToolPolicy::default_secure(), "/tmp/r", &flags, &vec![], false).ok().unwrap();
    let (b, _) = authorize_plan_preview(&plan, ToolPolicy::default_secure(), "/tmp/r", &flags, &vec![], true).ok().unwrap();
    assert_eq!(a.summary.allowed, b.summary.allowed);
    assert_eq!(a.summary.denied, b.summary.denied);
    assert_eq!(a.summary.approval_required, b.summary.approval_required);
    for (x, y) in a.steps.iter().zip(b.steps.iter()) {
        assert_eq!((x.allowed, x.approval_required, &x.mode), (y.allowed, y.approval_required, &y.mode));
        if !(x.allowed && x.approval_required) {
            assert_eq!(x.reason, y.reason);
        }
    }
    assert_eq!(a.steps[1].reason.as_deref(), Some("Action FilesMove requires user approval"));
    assert_eq!(b.steps[1].reason.as_deref(), Some("Explicitly approved via CLI: Action FilesMove requires user approval"));
}
