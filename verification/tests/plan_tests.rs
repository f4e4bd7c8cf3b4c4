use osai::json::{JsonMap, JsonValue};
use osai::plan::{ActionKind, ApprovalMode, OsaiPlan, PlanStep, PlanValidationError, RiskLevel};

fn uuid_bits(text: &str) -> u128 {
    uuid::Uuid::parse_str(text).unwrap().as_u128()
}

fn map_of(pairs: Vec<(&str, JsonValue)>) -> JsonMap {
    JsonMap { entries: pairs.into_iter().map(|(k, v)| (k.to_string(), v)).collect() }
}

fn create_basic_plan() -> OsaiPlan {
    let inputs = map_of(vec![("path", JsonValue::Str("/home/user/project".to_string()))]);
    OsaiPlan {
        version: "0.1".to_string(),
        id: uuid_bits("550e8400-e29b-41d4-a716-446655440000"),
        title: "Create project directory".to_string(),
        description: Some("Creates a new project directory".to_string()),
        actor: "osai-agent".to_string(),
        risk: RiskLevel::Medium,
        approval: ApprovalMode::Ask,
        steps: vec![PlanStep {
            id: "step-1".to_string(),
            action: ActionKind::FilesWrite,
            description: "Create the project directory".to_string(),
            requires_approval: true,
            inputs,
        }],
        rollback: None,
        metadata: JsonMap::new(),
    }
}

#[test]
fn test_validate_valid_plan() {
    let plan = create_basic_plan();
    assert!(plan.validate().is_ok());
}

#[test]
fn test_empty_version() {
    let mut plan = create_basic_plan();
    plan.version = "".to_string();
    let err = plan.validate().unwrap_err();
    assert!(matches!(err, PlanValidationError::EmptyVersion));
}

#[test]
fn test_empty_title() {
    let mut plan = create_basic_plan();
    plan.title = "".to_string();
    let err = plan.validate().unwrap_err();
    assert!(matches!(err, PlanValidationError::EmptyTitle));
}

#[test]
fn test_empty_actor() {
    let mut plan = create_basic_plan();
    plan.actor = "".to_string();
    let err = plan.validate().unwrap_err();
    assert!(matches!(err, PlanValidationError::EmptyActor));
}

#[test]
fn test_empty_steps() {
    let mut plan = create_basic_plan();
    plan.steps = vec![];
    let err = plan.validate().unwrap_err();
    assert!(matches!(err, PlanValidationError::EmptySteps));
}

#[test]
fn test_empty_step_id() {
    let mut plan = create_basic_plan();
    plan.steps[0].id = "".to_string();
    let err = plan.validate().unwrap_err();
    assert!(matches!(err, PlanValidationError::EmptyStepId(_)));
}

#[test]
fn test_duplicate_step_id() {
    let mut plan = create_basic_plan();
    plan.steps.push(PlanStep {
        id: "step-1".to_string(),
        action: ActionKind::FilesRead,
        description: "Another step".to_string(),
        requires_approval: true,
        inputs: JsonMap::new(),
    });
    let err = plan.validate().unwrap_err();
    assert!(matches!(err, PlanValidationError::DuplicateStepId(_)));
}

#[test]
fn test_critical_risk_requires_approval() {
    let mut plan = create_basic_plan();
    plan.risk = RiskLevel::Critical;
    plan.approval = ApprovalMode::Auto;
    let err = plan.validate().unwrap_err();
    assert!(matches!(err, PlanValidationError::CriticalRiskRequiresApproval(RiskLevel::Critical)));
}

#[test]
fn test_action_requires_approval() {
    let mut plan = create_basic_plan();
    plan.steps[0].action = ActionKind::FilesDelete;
    plan.steps[0].requires_approval = false;
    let err = plan.validate().unwrap_err();
    assert!(matches!(err, PlanValidationError::ActionRequiresApproval(_)));
}

#[test]
fn test_shell_sandbox_network_conflict() {
    let inputs = map_of(vec![("network", JsonValue::Bool(true)), ("sandbox", JsonValue::Bool(false))]);
    let mut plan = create_basic_plan();
    plan.steps[0].action = ActionKind::ShellRunSandboxed;
    plan.steps[0].inputs = inputs;
    let err = plan.validate().unwrap_err();
    assert!(matches!(err, PlanValidationError::ShellSandboxNetworkConflict));
}

#[test]
fn test_shell_sandbox_with_network_and_sandbox_ok() {
    let inputs = map_of(vec![("network", JsonValue::Bool(true)), ("sandbox", JsonValue::Bool(true))]);
    let mut plan = create_basic_plan();
    plan.steps[0].action = ActionKind::ShellRunSandboxed;
    plan.steps[0].inputs = inputs;
    assert!(plan.validate().is_ok());
}

#[test]
fn test_custom_action_requires_approval() {
    let mut plan = create_basic_plan();
    plan.steps[0].action = ActionKind::Custom("my_custom_action".to_string());
    plan.steps[0].requires_approval = false;
    let err = plan.validate().unwrap_err();
    assert!(matches!(err, PlanValidationError::ActionRequiresApproval(_)));
}

#[test]
fn test_action_kind_requires_approval() {
    assert!(ActionKind::FilesDelete.requires_approval());
    assert!(ActionKind::FilesWrite.requires_approval());
    assert!(ActionKind::FilesMove.requires_approval());
    assert!(ActionKind::ShellRunSandboxed.requires_approval());
    assert!(ActionKind::Custom("test".to_string()).requires_approval());
    assert!(!ActionKind::FilesList.requires_approval());
    assert!(!ActionKind::FilesRead.requires_approval());
}

#[test]
fn test_action_kind_is_destructive() {
    assert!(ActionKind::FilesDelete.is_destructive());
    assert!(ActionKind::FilesWrite.is_destructive());
    assert!(ActionKind::FilesMove.is_destructive());
    assert!(!ActionKind::FilesList.is_destructive());
    assert!(!ActionKind::ShellRunSandboxed.is_destructive());
}

#[test]
fn test_new_plan_generates_uuid() {
    let plan = OsaiPlan::new("Test plan".to_string(), "test-actor".to_string(), RiskLevel::Low, ApprovalMode::Auto);
    assert_ne!(plan.id, 0);
    assert_eq!(plan.version, "0.1");
    assert_eq!((plan.id >> 76) & 0xf, 4);
}

#[test]
fn validation_messages_name_the_broken_rule() {
    assert_eq!(PlanValidationError::EmptyVersion.message(), "version must not be empty");
    assert_eq!(PlanValidationError::EmptyStepId("".to_string()).message(), "step id '' must not be empty");
    assert_eq!(PlanValidationError::DuplicateStepId("step-1".to_string()).message(), "step id 'step-1' is duplicated");
    assert_eq!(
        PlanValidationError::CriticalRiskRequiresApproval(RiskLevel::Critical).message(),
        "critical risk requires ApprovalMode::Ask or ApprovalMode::AlwaysDeny, got Critical"
    );
    assert_eq!(
        PlanValidationError::ActionRequiresApproval(ActionKind::FilesDelete).message(),
        "action FilesDelete must require approval"
    );
    assert_eq!(
        PlanValidationError::ActionRequiresApproval(ActionKind::Custom("x".to_string())).message(),
        "action Custom(\"x\") must require approval"
    );
    assert_eq!(
        PlanValidationError::ShellSandboxNetworkConflict.message(),
        "ShellRunSandboxed with network=true requires sandbox=true"
    );
}

#[test]
fn destructive_steps_without_approval_never_validate() {
    for action in [ActionKind::FilesDelete, ActionKind::FilesWrite, ActionKind::FilesMove] {
        let mut plan = create_basic_plan();
        plan.steps[0].action = action;
        plan.steps[0].requires_approval = false;
        assert!(plan.validate().is_err());
    }
}
