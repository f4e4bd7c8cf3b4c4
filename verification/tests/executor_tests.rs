use osai::broker::{AuthorizationDecision, PolicyMode, ToolRequest};
use osai::executor::{ExecutionStatus, ToolExecutor};
use osai::json::{JsonMap, JsonValue};
use osai::paths::roots_admit;
use osai::plan::ActionKind;
use osai::receipt::{ReceiptStatus, ReceiptStore};

fn map_of(pairs: Vec<(&str, JsonValue)>) -> JsonMap {
    JsonMap { entries: pairs.into_iter().map(|(k, v)| (k.to_string(), v)).collect() }
}

fn field<'a>(v: &'a JsonValue, key: &str) -> Option<&'a JsonValue> {
    match v {
        JsonValue::Object(m) => m.get(key),
        _ => None,
    }
}

fn create_store() -> ReceiptStore {
    ReceiptStore::new("/tmp/osai-test-receipts")
}

fn create_allowed_request(action: ActionKind) -> ToolRequest {
    ToolRequest::new("agent", action, "Test action")
}

fn decision(allowed: bool, approval: bool, reason: &str, mode: PolicyMode) -> AuthorizationDecision {
    AuthorizationDecision {
        request_id: uuid::Uuid::new_v4().as_u128(),
        allowed,
        requires_user_approval: approval,
        reason: reason.to_string(),
        policy_mode: mode,
    }
}

fn create_allowed_decision() -> AuthorizationDecision {
    decision(true, false, "Allowed by policy", PolicyMode::Allow)
}

fn create_denied_decision() -> AuthorizationDecision {
    decision(false, false, "Denied by policy", PolicyMode::Deny)
}

fn create_approval_required_decision() -> AuthorizationDecision {
    decision(true, true, "Requires approval", PolicyMode::Ask)
}

/// Whether `path` is within `/tmp`, as the executor's root check decides it for
/// paths that resolve to themselves.
fn within_tmp(path: &str) -> bool {
    roots_admit(Some(path), &vec![Some("/tmp".to_string())])
}

#[test]
fn test_files_list_succeeds_for_allowed_root() {
    let executor = ToolExecutor::new(create_store(), vec!["/tmp".to_string()]);
    let request = create_allowed_request(ActionKind::FilesList)
        .with_inputs(map_of(vec![("path", JsonValue::Str("/tmp".to_string()))]));
    let result = executor.execute_authorized(&request, &create_allowed_decision(), None, within_tmp("/tmp")).result;
    assert_eq!(result.status, ExecutionStatus::Executed);
    assert!(result.output.is_some());
    assert!(result.error.is_none());
}

#[test]
fn test_files_list_denies_path_outside_allowed_roots() {
    let executor = ToolExecutor::new(create_store(), vec!["/tmp".to_string()]);
    let request = create_allowed_request(ActionKind::FilesList)
        .with_inputs(map_of(vec![("path", JsonValue::Str("/etc".to_string()))]));
    let result = executor.execute_authorized(&request, &create_allowed_decision(), None, within_tmp("/etc")).result;
    assert_eq!(result.status, ExecutionStatus::Failed);
    assert!(result.error.is_some());
    assert!(result.error.unwrap().contains("not within allowed roots"));
}

#[test]
fn test_files_list_does_not_recurse() {
    let executor = ToolExecutor::new(create_store(), vec!["/tmp".to_string()]);
    let request = create_allowed_request(ActionKind::FilesList)
        .with_inputs(map_of(vec![("path", JsonValue::Str("/tmp".to_string()))]));
    let result = executor.execute_authorized(&request, &create_allowed_decision(), None, within_tmp("/tmp")).result;
    assert_eq!(result.status, ExecutionStatus::Executed);
    assert!(matches!(result.output, Some(JsonValue::Array(items)) if items.is_empty()));
}

#[test]
fn test_desktop_notify_returns_simulated_output() {
    let executor = ToolExecutor::new(create_store(), vec![]);
    let request = create_allowed_request(ActionKind::DesktopNotify).with_inputs(map_of(vec![
        ("title", JsonValue::Str("Test Title".to_string())),
        ("body", JsonValue::Str("Test Body".to_string())),
    ]));
    let result = executor.execute_authorized(&request, &create_allowed_decision(), None, true).result;
    assert_eq!(result.status, ExecutionStatus::Executed);
    let output = result.output.unwrap();
    assert!(matches!(field(&output, "simulated"), Some(JsonValue::Bool(true))));
    assert!(matches!(field(&output, "title"), Some(JsonValue::Str(t)) if t == "Test Title"));
    assert!(matches!(field(&output, "body"), Some(JsonValue::Str(t)) if t == "Test Body"));
}

#[test]
fn test_model_chat_returns_simulated_output() {
    let executor = ToolExecutor::new(create_store(), vec![]);
    let request = create_allowed_request(ActionKind::ModelChat);
    let result = executor.execute_authorized(&request, &create_allowed_decision(), None, true).result;
    assert_eq!(result.status, ExecutionStatus::Executed);
    let output = result.output.unwrap();
    assert!(matches!(field(&output, "simulated"), Some(JsonValue::Bool(true))));
    assert!(matches!(field(&output, "message"), Some(JsonValue::Str(m)) if m.contains("not implemented yet")));
}

#[test]
fn test_denied_decision_skips_execution() {
    let executor = ToolExecutor::new(create_store(), vec![]);
    let request = create_allowed_request(ActionKind::DesktopNotify);
    let mut d = create_denied_decision();
    d.request_id = request.id;
    let result = executor.execute_authorized(&request, &d, None, true).result;
    assert_eq!(result.status, ExecutionStatus::Skipped);
    assert!(result.error.is_some());
    assert!(result.error.unwrap().contains("denied"));
}

#[test]
fn test_approval_required_decision_skips_execution() {
    let executor = ToolExecutor::new(create_store(), vec![]);
    let request = create_allowed_request(ActionKind::DesktopNotify);
    let mut d = create_approval_required_decision();
    d.request_id = request.id;
    let result = executor.execute_authorized(&request, &d, None, true).result;
    assert_eq!(result.status, ExecutionStatus::Skipped);
    assert!(result.error.is_some());
    assert!(result.error.unwrap().contains("requires user approval"));
}

#[test]
fn test_unsupported_files_move_does_not_mutate() {
    let executor = ToolExecutor::new(create_store(), vec!["/tmp".to_string()]);
    let request = create_allowed_request(ActionKind::FilesMove).with_inputs(map_of(vec![
        ("source", JsonValue::Str("/tmp/a".to_string())),
        ("destination", JsonValue::Str("/tmp/b".to_string())),
    ]));
    let result = executor.execute_authorized(&request, &create_allowed_decision(), None, true).result;
    assert_eq!(result.status, ExecutionStatus::Failed);
    assert!(result.error.unwrap().contains("not executable in ToolExecutor v0.1"));
}

#[test]
fn test_execution_writes_receipt() {
    let executor = ToolExecutor::new(create_store(), vec!["/tmp".to_string()]);
    let request = create_allowed_request(ActionKind::DesktopNotify).with_inputs(map_of(vec![
        ("title", JsonValue::Str("Test".to_string())),
        ("body", JsonValue::Str("Body".to_string())),
    ]));
    let receipt_id = request.id;
    let outcome = executor.execute_authorized(&request, &create_allowed_decision(), None, true);
    assert_eq!(outcome.receipt.id, receipt_id);
    assert_eq!(outcome.receipt.action, "DesktopNotify");
    assert_eq!(outcome.receipt.status, ReceiptStatus::Executed);
    assert!(outcome.receipt.validate().is_ok());
}

#[test]
fn receipt_records_the_applied_policy_mode() {
    let executor = ToolExecutor::new(create_store(), vec![]);
    let request = create_allowed_request(ActionKind::ModelChat);
    let allowed = executor.execute_authorized(&request, &create_allowed_decision(), None, true);
    assert_eq!(allowed.receipt.approval, "Allow");
    let asked = executor.execute_authorized(&request, &create_approval_required_decision(), None, true);
    assert_eq!(asked.receipt.approval, "Ask");
    let denied = executor.execute_authorized(&request, &create_denied_decision(), None, true);
    assert_eq!(denied.receipt.approval, "Deny");
}

#[test]
fn test_secrets_redacted_in_receipts() {
    let executor = ToolExecutor::new(create_store(), vec![]);
    let request = create_allowed_request(ActionKind::DesktopNotify).with_inputs(map_of(vec![
        ("api_key", JsonValue::Str("secret-key-123".to_string())),
        ("password", JsonValue::Str("my-password".to_string())),
        ("title", JsonValue::Str("Test".to_string())),
    ]));
    let outcome = executor.execute_authorized(&request, &create_allowed_decision(), None, true);
    let redacted = &outcome.receipt.inputs_redacted;
    assert!(matches!(field(redacted, "api_key"), Some(JsonValue::Str(v)) if v == "[REDACTED]"));
    assert!(matches!(field(redacted, "password"), Some(JsonValue::Str(v)) if v == "[REDACTED]"));
    assert!(matches!(field(redacted, "title"), Some(JsonValue::Str(v)) if v == "Test"));
}

#[test]
fn test_new_executor() {
    let executor = ToolExecutor::new(create_store(), vec!["/home".to_string()]);
    assert_eq!(executor.allowed_roots(), &vec!["/home".to_string()]);
}

#[test]
fn tilde_paths_expand_against_home() {
    let request = create_allowed_request(ActionKind::FilesList)
        .with_inputs(map_of(vec![("path", JsonValue::Str("~/Downloads".to_string()))]));
    assert_eq!(ToolExecutor::files_list_target(&request, Some("/home/u")), Some("/home/u/Downloads".to_string()));
    let executor = ToolExecutor::new(create_store(), vec![]);
    let result = executor.execute_authorized(&request, &create_allowed_decision(), Some("/home/u"), false).result;
    assert_eq!(result.error, Some("Path '/home/u/Downloads' is not within allowed roots".to_string()));
}

#[test]
fn files_list_without_path_fails() {
    let executor = ToolExecutor::new(create_store(), vec![]);
    let request = create_allowed_request(ActionKind::FilesList);
    let result = executor.execute_authorized(&request, &create_allowed_decision(), None, true).result;
    assert_eq!(result.status, ExecutionStatus::Failed);
    assert_eq!(result.error, Some("FilesList requires 'path' input".to_string()));
}

#[test]
fn paths_are_allowed_only_under_a_resolved_root() {
    let executor = ToolExecutor::new(create_store(), vec!["/h/Downloads".to_string(), "/missing".to_string()]);
    let roots = vec![Some("/h/Downloads".to_string()), None];
    assert!(executor.is_path_allowed(Some("/h/Downloads/a.txt"), &roots));
    assert!(executor.is_path_allowed(Some("/h/Downloads"), &roots));
    assert!(!executor.is_path_allowed(Some("/h/Downloads-evil/a.txt"), &roots));
    assert!(!executor.is_path_allowed(Some("/missing/a"), &roots));
    assert!(!executor.is_path_allowed(None, &roots));
    let flags = executor.path_flags(&vec![Some("/h/Downloads/x".to_string()), None, Some("/etc".to_string())], &roots);
    assert_eq!(flags, vec![true, false, false]);
    let none = ToolExecutor::new(create_store(), vec![]);
    assert!(!none.is_path_allowed(Some("/h/Downloads/a.txt"), &vec![]));
}
