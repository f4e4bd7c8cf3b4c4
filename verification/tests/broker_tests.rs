use osai::broker::{AuthorizationDecision, PolicyMode, ToolBroker, ToolPolicy, ToolRequest};
use osai::json::{JsonMap, JsonValue};
use osai::plan::{ActionKind, RiskLevel};
use osai::receipt::{ReceiptStatus, ReceiptStore};

fn map_of(pairs: Vec<(&str, JsonValue)>) -> JsonMap {
    JsonMap { entries: pairs.into_iter().map(|(k, v)| (k.to_string(), v)).collect() }
}

fn create_broker() -> ToolBroker {
    ToolBroker::new(ToolPolicy::default_secure(), ReceiptStore::new("/tmp/osai-test-receipts"))
}

fn field<'a>(v: &'a JsonValue, key: &str) -> Option<&'a JsonValue> {
    match v {
        JsonValue::Object(m) => m.get(key),
        _ => None,
    }
}

#[test]
fn test_default_policy_allows_model_chat() {
    let broker = create_broker();
    let request = ToolRequest::new("agent", ActionKind::ModelChat, "Chat with AI");
    let (decision, _) = broker.authorize(&request);
    assert!(decision.allowed);
    assert!(!decision.requires_user_approval);
    assert!(decision.policy_mode.is_allow());
}

#[test]
fn test_default_policy_allows_desktop_notify() {
    let broker = create_broker();
    let request = ToolRequest::new("agent", ActionKind::DesktopNotify, "Send notification");
    let (decision, _) = broker.authorize(&request);
    assert!(decision.allowed);
    assert!(!decision.requires_user_approval);
}

#[test]
fn test_files_delete_requires_approval() {
    let broker = create_broker();
    let request = ToolRequest::new("agent", ActionKind::FilesDelete, "Delete file");
    let (decision, _) = broker.authorize(&request);
    assert!(decision.allowed);
    assert!(decision.requires_user_approval);
    assert!(decision.policy_mode.requires_approval());
}

#[test]
fn test_files_write_requires_approval() {
    let broker = create_broker();
    let request = ToolRequest::new("agent", ActionKind::FilesWrite, "Write file");
    let (decision, _) = broker.authorize(&request);
    assert!(decision.allowed);
    assert!(decision.requires_user_approval);
}

#[test]
fn test_files_move_requires_approval() {
    let broker = create_broker();
    let request = ToolRequest::new("agent", ActionKind::FilesMove, "Move file");
    let (decision, _) = broker.authorize(&request);
    assert!(decision.allowed);
    assert!(decision.requires_user_approval);
}

#[test]
fn test_shell_run_sandboxed_requires_approval() {
    let broker = create_broker();
    let inputs = map_of(vec![("command", JsonValue::Str("ls".to_string())), ("sandbox", JsonValue::Bool(true))]);
    let request = ToolRequest::new("agent", ActionKind::ShellRunSandboxed, "Run shell").with_inputs(inputs);
    let (decision, _) = broker.authorize(&request);
    assert!(decision.allowed);
    assert!(decision.requires_user_approval);
}

#[test]
fn test_shell_sandbox_network_denied_by_default() {
    let broker = create_broker();
    let inputs = map_of(vec![
        ("command", JsonValue::Str("curl https://example.com".to_string())),
        ("network", JsonValue::Bool(true)),
        ("sandbox", JsonValue::Bool(false)),
    ]);
    let request =
        ToolRequest::new("agent", ActionKind::ShellRunSandboxed, "Run shell with network").with_inputs(inputs);
    let (decision, _) = broker.authorize(&request);
    assert!(!decision.allowed);
    assert!(decision.policy_mode.is_deny());
    assert!(decision.reason.contains("network=true"));
}

#[test]
fn test_shell_sandbox_without_sandbox_denied_by_default() {
    let broker = create_broker();
    let inputs = map_of(vec![("command", JsonValue::Str("ls".to_string())), ("sandbox", JsonValue::Bool(false))]);
    let request =
        ToolRequest::new("agent", ActionKind::ShellRunSandboxed, "Run shell without sandbox").with_inputs(inputs);
    let (decision, _) = broker.authorize(&request);
    assert!(!decision.allowed);
    assert!(decision.policy_mode.is_deny());
    assert!(decision.reason.contains("sandbox required"));
}

#[test]
fn lib_test_custom_action_requires_approval() {
    let broker = create_broker();
    let request = ToolRequest::new("agent", ActionKind::Custom("my_custom_action".to_string()), "Custom action");
    let (decision, _) = broker.authorize(&request);
    assert!(!decision.allowed);
    assert!(decision.policy_mode.is_deny());
}

#[test]
fn test_explicit_deny_policy_denies() {
    let mut policy = ToolPolicy::default_secure();
    policy.action_modes.insert("ModelChat".to_string(), PolicyMode::Deny);
    let broker = ToolBroker::new(policy, ReceiptStore::new("/tmp/osai-test-receipts"));
    let request = ToolRequest::new("agent", ActionKind::ModelChat, "Chat with AI");
    let (decision, _) = broker.authorize(&request);
    assert!(!decision.allowed);
    assert!(decision.policy_mode.is_deny());
}

#[test]
fn test_explicit_ask_policy_requires_approval() {
    let mut policy = ToolPolicy::default_secure();
    policy.action_modes.insert("ModelChat".to_string(), PolicyMode::Ask);
    let broker = ToolBroker::new(policy, ReceiptStore::new("/tmp/osai-test-receipts"));
    let request = ToolRequest::new("agent", ActionKind::ModelChat, "Chat with AI");
    let (decision, _) = broker.authorize(&request);
    assert!(decision.allowed);
    assert!(decision.requires_user_approval);
}

#[test]
fn test_secret_inputs_redacted_in_receipt() {
    let broker = create_broker();
    let inputs = map_of(vec![
        ("api_key", JsonValue::Str("secret-key-123".to_string())),
        ("path", JsonValue::Str("/tmp/test".to_string())),
    ]);
    let request = ToolRequest::new("agent", ActionKind::FilesWrite, "Write file with secrets").with_inputs(inputs);
    let receipt_id = request.id;
    let (_, receipt) = broker.authorize(&request);
    assert_eq!(receipt.id, receipt_id);
    let redacted = &receipt.inputs_redacted;
    assert!(field(redacted, "action").is_some());
    assert!(field(redacted, "description").is_some());
    let inner = field(redacted, "inputs").unwrap();
    assert!(matches!(field(inner, "api_key"), Some(JsonValue::Str(v)) if v == "[REDACTED]"));
    assert!(matches!(field(inner, "path"), Some(JsonValue::Str(v)) if v == "/tmp/test"));
}

#[test]
fn test_authorize_writes_receipt() {
    let broker = create_broker();
    let request = ToolRequest::new("agent", ActionKind::ModelChat, "Chat with AI");
    let (_, receipt) = broker.authorize(&request);
    assert!(receipt.validate().is_ok());
    assert_eq!(receipt.status, ReceiptStatus::Approved);
    assert!(broker.receipt_store().prepare_write(&receipt).is_ok());
}

#[test]
fn test_tool_request_builder() {
    let request = ToolRequest::new("agent", ActionKind::FilesWrite, "Write file")
        .with_plan_id(uuid::Uuid::new_v4().as_u128())
        .with_step_id("step-1")
        .with_risk(RiskLevel::Medium);
    assert_eq!(request.actor, "agent");
    assert!(matches!(request.action, ActionKind::FilesWrite));
    assert_eq!(request.description, "Write file");
    assert!(request.plan_id.is_some());
    assert_eq!(request.step_id, Some("step-1".to_string()));
    assert_eq!(request.risk, RiskLevel::Medium);
}

#[test]
fn test_authorization_decision_fields() {
    let request = ToolRequest::new("agent", ActionKind::ModelChat, "Chat");
    let decision = AuthorizationDecision {
        request_id: request.id,
        allowed: true,
        requires_user_approval: false,
        reason: "Allowed".to_string(),
        policy_mode: PolicyMode::Allow,
    };
    assert_eq!(decision.request_id, request.id);
    assert!(decision.allowed);
    assert!(!decision.requires_user_approval);
}

#[test]
fn test_policy_mode_helpers() {
    assert!(PolicyMode::Allow.is_allow());
    assert!(!PolicyMode::Allow.requires_approval());
    assert!(!PolicyMode::Allow.is_deny());

    assert!(!PolicyMode::Ask.is_allow());
    assert!(PolicyMode::Ask.requires_approval());
    assert!(!PolicyMode::Ask.is_deny());

    assert!(!PolicyMode::Deny.is_allow());
    assert!(!PolicyMode::Deny.requires_approval());
    assert!(PolicyMode::Deny.is_deny());
}

#[test]
fn test_action_name() {
    let request = ToolRequest::new("agent", ActionKind::Custom("test".to_string()), "desc");
    assert_eq!(request.action_name(), "Custom(test)");
    let request = ToolRequest::new("agent", ActionKind::ShellRunSandboxed, "desc");
    assert_eq!(request.action_name(), "ShellRunSandboxed");
}

#[test]
fn test_files_read_allowed_by_default() {
    let broker = create_broker();
    let request = ToolRequest::new("agent", ActionKind::FilesRead, "Read file");
    let (decision, _) = broker.authorize(&request);
    assert!(decision.allowed);
    assert!(!decision.requires_user_approval);
}

#[test]
fn test_browser_open_url_requires_approval() {
    let broker = create_broker();
    let request = ToolRequest::new("agent", ActionKind::BrowserOpenUrl, "Open URL");
    let (decision, _) = broker.authorize(&request);
    assert!(decision.allowed);
    assert!(decision.requires_user_approval);
}

#[test]
fn decision_reasons_name_the_action() {
    let broker = create_broker();
    let (d, r) = broker.authorize(&ToolRequest::new("agent", ActionKind::ModelChat, "x"));
    assert_eq!(d.reason, "Action ModelChat allowed by policy");
    assert_eq!(r.approval, "Allow");
    let (d, r) = broker.authorize(&ToolRequest::new("agent", ActionKind::FilesWrite, "x"));
    assert_eq!(d.reason, "Action FilesWrite requires user approval");
    assert_eq!(r.status, ReceiptStatus::Planned);
    let (d, r) = broker.authorize(&ToolRequest::new("agent", ActionKind::Custom("x".to_string()), "x"));
    assert_eq!(d.reason, "Action Custom(x) denied by policy");
    assert_eq!(r.status, ReceiptStatus::Denied);
}

#[test]
fn custom_mode_applies_to_every_custom_action() {
    let mut policy = ToolPolicy::default_secure();
    policy.action_modes.insert("Custom".to_string(), PolicyMode::Allow);
    assert_eq!(policy.get_action_mode("Custom(anything)"), PolicyMode::Allow);
    assert_eq!(policy.get_action_mode("Unlisted"), PolicyMode::Ask);
    assert_eq!(ToolPolicy::default_secure().get_action_mode("FilesList"), PolicyMode::Allow);
}

#[test]
fn shell_network_is_denied_even_when_shell_is_allowed() {
    let mut policy = ToolPolicy::default_secure();
    policy.action_modes.insert("ShellRunSandboxed".to_string(), PolicyMode::Allow);
    let broker = ToolBroker::new(policy, ReceiptStore::new("/tmp/osai-test-receipts"));
    let inputs = map_of(vec![("network", JsonValue::Bool(true)), ("sandbox", JsonValue::Bool(true))]);
    let (d, _) = broker.authorize(&ToolRequest::new("agent", ActionKind::ShellRunSandboxed, "x").with_inputs(inputs));
    assert!(!d.allowed);
    assert_eq!(d.policy_mode, PolicyMode::Deny);
}
