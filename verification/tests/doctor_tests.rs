use osai::doctor::{
    check_examples_validate, check_models_body, check_repo_structure, doctor_lines, doctor_outcome, doctor_report,
    example_plan_paths, health_check, model_router_url_check, models_body_check, models_failure, repo_required_paths,
    CheckResult, ExamplePlan, RouterAnswer,
};
use osai::json::{JsonMap, JsonValue};
use osai::plan::{ActionKind, ApprovalMode, OsaiPlan, PlanStep, RiskLevel};

fn check(name: &str, status: &str) -> CheckResult {
    CheckResult { name: name.to_string(), status: status.to_string(), message: String::new() }
}

fn plan_of(action: ActionKind, approval: bool, inputs: JsonMap) -> OsaiPlan {
    OsaiPlan {
        version: "0.1".to_string(),
        id: 3,
        title: "Example".to_string(),
        description: None,
        actor: "user".to_string(),
        risk: RiskLevel::Low,
        approval: ApprovalMode::Ask,
        steps: vec![PlanStep {
            id: "step-1".to_string(),
            action,
            description: "do it".to_string(),
            requires_approval: approval,
            inputs,
        }],
        rollback: None,
        metadata: JsonMap::new(),
    }
}

fn risky_shell() -> OsaiPlan {
    let inputs = JsonMap {
        entries: vec![
            ("command".to_string(), JsonValue::Str("curl x".to_string())),
            ("network".to_string(), JsonValue::Bool(true)),
            ("sandbox".to_string(), JsonValue::Bool(false)),
        ],
    };
    plan_of(ActionKind::ShellRunSandboxed, true, inputs)
}

#[test]
fn test_doctor_rejects_non_loopback_model_router_url() {
    let c = model_router_url_check("http://example.com:8088").expect("a failed check");
    assert_eq!(c.name, "model_router_url");
    assert_eq!(c.status, "FAIL");
    assert_eq!(
        c.message,
        "Model router URL must be loopback only (127.0.0.1 or localhost): http://example.com:8088"
    );
    let report = doctor_report(vec![c]);
    assert_eq!(doctor_outcome(&report, true), Err("invalid model router URL".to_string()));
    assert!(model_router_url_check("http://127.0.0.1:8088").is_none());
}

#[test]
fn reports_tally_statuses() {
    let report = doctor_report(vec![check("a", "OK"), check("b", "WARN"), check("c", "OK"), check("d", "SKIP")]);
    assert_eq!(report.summary.ok, 2);
    assert_eq!(report.summary.warn, 1);
    assert_eq!(report.summary.fail, 0);
    assert_eq!(report.status, "ok");
    assert_eq!(report.checks.len(), 4);
    assert!(doctor_outcome(&report, false).is_ok());
    let failed = doctor_report(vec![check("a", "FAIL")]);
    assert_eq!(failed.status, "fail");
    assert_eq!(doctor_outcome(&failed, false), Err("doctor checks failed".to_string()));
}

#[test]
fn repository_layout_names_missing_paths() {
    assert_eq!(repo_required_paths().len(), 9);
    let all = vec![true; 9];
    assert_eq!(check_repo_structure(&all), ("OK".to_string(), "All required paths exist".to_string()));
    let mut some = vec![true; 9];
    some[0] = false;
    some[8] = false;
    assert_eq!(
        check_repo_structure(&some),
        ("FAIL".to_string(), "Missing paths: Cargo.toml, examples/policies".to_string())
    );
}

#[test]
fn example_plans_are_checked_against_expectations() {
    let paths = example_plan_paths();
    assert_eq!(paths[2], "examples/plans/risky-shell.yml");
    let good = || plan_of(ActionKind::FilesList, false, JsonMap::new());
    let (status, message) = check_examples_validate(&vec![
        ExamplePlan::Parsed(good()),
        ExamplePlan::Parsed(good()),
        ExamplePlan::Parsed(risky_shell()),
    ]);
    assert_eq!(status, "OK");
    assert_eq!(
        message,
        "examples/plans/organize-downloads.yml: OK; examples/plans/model-chat.yml: OK; \
         examples/plans/risky-shell.yml: OK (expected shell/network safety failure)"
    );
}

#[test]
fn missing_or_broken_examples_fail() {
    let good = || plan_of(ActionKind::FilesList, false, JsonMap::new());
    let (status, message) = check_examples_validate(&vec![
        ExamplePlan::Missing,
        ExamplePlan::Unreadable("bad yaml".to_string()),
        ExamplePlan::Parsed(good()),
    ]);
    assert_eq!(status, "FAIL");
    assert_eq!(
        message,
        "examples/plans/organize-downloads.yml: missing; \
         examples/plans/model-chat.yml: FAIL (parse error: bad yaml); \
         examples/plans/risky-shell.yml: OK (expected failure but passed)"
    );
}

#[test]
fn models_body_must_name_every_model() {
    let body = r#"{"data":[{"id":"osai-local"},{"id":"osai-cloud"},{"id":"osai-auto"},{"id":"MiniMax-M2.7"}]}"#;
    assert_eq!(check_models_body(body), ("OK".to_string(), "All required models present".to_string()));
    assert_eq!(
        check_models_body(r#"{"data":[{"id":"osai-local"}]}"#),
        ("FAIL".to_string(), "Missing models: osai-cloud, osai-auto, MiniMax-M2.7".to_string())
    );
}

#[test]
fn text_report_lists_checks_and_tally() {
    let report = doctor_report(vec![
        CheckResult { name: "repo_structure".to_string(), status: "OK".to_string(), message: "fine".to_string() },
        CheckResult { name: "receipts_dir".to_string(), status: "FAIL".to_string(), message: "no".to_string() },
    ]);
    assert_eq!(
        doctor_lines(&report),
        vec![
            "OSAI Doctor".to_string(),
            String::new(),
            "[OK] repo_structure: fine".to_string(),
            "[FAIL] receipts_dir: no".to_string(),
            String::new(),
            "Summary: 1 ok, 0 warn, 1 fail".to_string(),
        ]
    );
}

#[test]
fn router_answers_become_checks() {
    assert_eq!(
        health_check(&RouterAnswer::Answered(200, "200 OK".to_string())),
        ("OK".to_string(), "Health check returned 200 OK".to_string())
    );
    assert_eq!(
        health_check(&RouterAnswer::Answered(503, "503 Service Unavailable".to_string())),
        ("FAIL".to_string(), "Health check returned 503 Service Unavailable".to_string())
    );
    assert_eq!(
        health_check(&RouterAnswer::Failed("connection refused".to_string())),
        ("FAIL".to_string(), "Health check failed: connection refused".to_string())
    );
    assert_eq!(
        health_check(&RouterAnswer::NoClient("tls".to_string())),
        ("FAIL".to_string(), "Failed to create HTTP client: tls".to_string())
    );
    assert_eq!(models_failure(&RouterAnswer::Answered(204, "204 No Content".to_string())), None);
    assert_eq!(
        models_failure(&RouterAnswer::Answered(404, "404 Not Found".to_string())),
        Some(("FAIL".to_string(), "Models endpoint returned 404 Not Found".to_string()))
    );
    assert_eq!(
        models_body_check(Err("eof")),
        ("FAIL".to_string(), "Failed to read response: eof".to_string())
    );
    assert_eq!(models_body_check(Ok("osai-local osai-cloud osai-auto MiniMax-M2.7")).0, "OK");
}
