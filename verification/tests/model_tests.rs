use osai::json::{JsonMap, JsonValue};
use osai::model::{
    accept_generated_plan, ask_failure, ask_file_name, ask_max_tokens, ask_messages, ask_receipt, ask_success,
    chat_failure, chat_messages, chat_receipt, chat_result, first_finish_reason, loopback_url_error,
    refresh_example_id, resolve_input, response_content, router_host, take_chars, AskResult, ChatChoice,
    ChatChoiceMessage, ChatResponse, ASK_SYSTEM_PROMPT, EXAMPLE_PLAN_ID,
};
use osai::plan::{ActionKind, ApprovalMode, OsaiPlan, PlanStep, RiskLevel};
use osai::receipt::ReceiptStatus;

fn field<'a>(v: &'a JsonValue, key: &str) -> Option<&'a JsonValue> {
    match v {
        JsonValue::Object(m) => m.get(key),
        _ => None,
    }
}

fn text_of(v: Option<&JsonValue>) -> Option<String> {
    match v {
        Some(JsonValue::Str(s)) => Some(s.clone()),
        Some(JsonValue::Number(n)) => Some(n.clone()),
        _ => None,
    }
}

fn keys(v: &JsonValue) -> Vec<String> {
    match v {
        JsonValue::Object(m) => m.entries.iter().map(|(k, _)| k.clone()).collect(),
        _ => vec![],
    }
}

fn list_plan(id: u128, title: &str) -> OsaiPlan {
    let mut inputs = JsonMap::new();
    inputs.insert("path".to_string(), JsonValue::Str("~/Downloads".to_string()));
    OsaiPlan {
        version: "0.1".to_string(),
        id,
        title: title.to_string(),
        description: Some("List files in the user's Downloads folder".to_string()),
        actor: "user".to_string(),
        risk: RiskLevel::Low,
        approval: ApprovalMode::Auto,
        steps: vec![PlanStep {
            id: "step-1".to_string(),
            action: ActionKind::FilesList,
            description: "List files in Downloads".to_string(),
            requires_approval: false,
            inputs,
        }],
        rollback: None,
        metadata: JsonMap::new(),
    }
}

fn response(content: Option<&str>, finish: Option<&str>) -> ChatResponse {
    ChatResponse {
        id: "chat-test".to_string(),
        model: "osai-auto".to_string(),
        choices: vec![ChatChoice {
            message: ChatChoiceMessage { role: "assistant".to_string(), content: content.map(|c| c.to_string()) },
            finish_reason: finish.map(|f| f.to_string()),
        }],
        usage: None,
    }
}

#[test]
fn test_ask_system_prompt_contains_required_elements() {
    let system_prompt = ASK_SYSTEM_PROMPT;
    assert!(system_prompt.contains("steps:"));
    assert!(system_prompt.contains("NEVER use `plan:`"));
    assert!(system_prompt.contains("FilesList"));
    assert!(system_prompt.contains("00000000-0000-4000-8000-000000000001"));
    assert!(system_prompt.contains("rollback:"));
    assert!(system_prompt.contains("metadata: {}"));
}

#[test]
fn test_ask_result_with_error() {
    let result = AskResult {
        status: "error".to_string(),
        output_path: None,
        validation: "invalid".to_string(),
        error: Some("model failed".to_string()),
    };
    assert_eq!(result.status, "error");
    assert!(result.output_path.is_none());
    assert!(result.error.is_some());
    let built = ask_failure("model failed");
    assert_eq!(built.status, result.status);
    assert_eq!(built.validation, result.validation);
    assert_eq!(built.error, result.error);
    assert!(built.output_path.is_none());
}

#[test]
fn ask_success_names_the_saved_plan() {
    let r = ask_success("/home/user/.local/share/osai/plans/test-123.yml");
    assert_eq!(r.status, "success");
    assert_eq!(r.validation, "valid");
    assert_eq!(r.output_path.as_deref(), Some("/home/user/.local/share/osai/plans/test-123.yml"));
    assert!(r.error.is_none());
}

#[test]
fn test_chat_positional_and_message_conflict() {
    let err = resolve_input(Some("--message"), &vec!["Hello".to_string()], "message").unwrap_err();
    assert!(err.contains("Cannot use both"));
}

#[test]
fn test_chat_missing_message() {
    let err = resolve_input(None, &vec![], "message").unwrap_err();
    assert!(err.contains("No message provided"));
}

#[test]
fn test_ask_positional_and_message_conflict() {
    let err = resolve_input(Some("--message"), &vec!["Hello".to_string()], "request").unwrap_err();
    assert!(err.contains("Cannot use both"));
}

#[test]
fn test_ask_missing_request() {
    let err = resolve_input(None, &vec![], "request").unwrap_err();
    assert!(err.contains("No request provided"));
}

#[test]
fn positional_words_are_joined() {
    assert_eq!(resolve_input(None, &vec!["Hello".to_string(), "world".to_string()], "message"), Ok("Hello world".to_string()));
    assert_eq!(resolve_input(Some("Hi there"), &vec![], "message"), Ok("Hi there".to_string()));
    assert_eq!(
        resolve_input(None, &vec![], "message"),
        Err("No message provided. Use a positional message or --message flag.".to_string())
    );
}

#[test]
fn requests_carry_the_right_messages() {
    let c = chat_messages("Hello");
    assert_eq!(c.len(), 1);
    assert_eq!(c[0].role, "user");
    assert_eq!(c[0].content, "Hello");
    let a = ask_messages("sys", "list my files");
    assert_eq!(a[0].role, "system");
    assert_eq!(a[0].content, "sys");
    assert_eq!(a[1].role, "user");
    assert_eq!(a[1].content, "list my files");
    assert_eq!(ask_max_tokens(None), Some(1200));
    assert_eq!(ask_max_tokens(Some(50)), Some(50));
}

#[test]
fn response_content_is_the_first_choice() {
    assert_eq!(response_content(&response(Some("The answer is 42"), Some("stop"))), Ok("The answer is 42".to_string()));
    assert_eq!(response_content(&response(None, None)), Err("Model response missing content".to_string()));
    let empty = ChatResponse { id: "x".to_string(), model: "m".to_string(), choices: vec![], usage: None };
    assert!(response_content(&empty).is_err());
    assert_eq!(first_finish_reason(&response(Some("a"), Some("stop"))), Some("stop".to_string()));
    assert_eq!(first_finish_reason(&empty), None);
}

#[test]
fn chat_results_count_bytes() {
    let r = chat_result("héllo".to_string());
    assert_eq!(r.status, "success");
    assert_eq!(r.response_length, Some(6));
    let f = chat_failure("router down");
    assert_eq!(f.status, "error");
    assert_eq!(f.error.as_deref(), Some("router down"));
    assert!(f.content.is_none());
}

#[test]
fn router_hosts_and_loopback_checks() {
    assert_eq!(router_host("http://127.0.0.1:8088"), "127.0.0.1");
    assert_eq!(router_host("not a url"), "unknown");
    assert!(loopback_url_error("http://localhost:8088").is_none());
    assert_eq!(
        loopback_url_error("http://example.com"),
        Some("Model router URL must be loopback only (127.0.0.1 or localhost): http://example.com".to_string())
    );
}

#[test]
fn test_chat_receipt_does_not_contain_prompt_content() {
    let r = chat_receipt(
        "http://127.0.0.1:8088",
        "osai-auto",
        "local_only",
        "my secret prompt",
        "0.2",
        None,
        Some("stop"),
        "the reply",
    );
    assert_eq!(r.action, "ModelChat");
    assert_eq!(r.tool.as_deref(), Some("osai-agent chat"));
    assert_eq!(r.status, ReceiptStatus::Executed);
    assert_eq!(
        keys(&r.inputs_redacted),
        vec!["max_tokens", "model", "model_router_url_host", "privacy", "prompt_length", "temperature"]
    );
    assert_eq!(text_of(field(&r.inputs_redacted, "prompt_length")), Some("16".to_string()));
    assert_eq!(text_of(field(&r.inputs_redacted, "model_router_url_host")), Some("127.0.0.1".to_string()));
    assert!(matches!(field(&r.inputs_redacted, "max_tokens"), Some(JsonValue::Null)));
    let out = r.outputs_redacted.as_ref().unwrap();
    assert_eq!(text_of(field(out, "finish_reason")), Some("stop".to_string()));
    assert_eq!(text_of(field(out, "response_length")), Some("9".to_string()));
    for k in keys(&r.inputs_redacted) {
        let t = text_of(field(&r.inputs_redacted, &k)).unwrap_or_default();
        assert!(!t.contains("secret prompt"));
    }
    assert!(r.validate().is_ok());
}

#[test]
fn test_ask_receipt_does_not_contain_request_content() {
    let r = ask_receipt("http://localhost:8088", "osai-auto", "local_only", "delete my files", Some("/p/x.yml"), true, None);
    assert_eq!(r.action, "PlanGenerate");
    assert_eq!(r.status, ReceiptStatus::Executed);
    assert_eq!(keys(&r.inputs_redacted), vec!["model", "model_router_url_host", "privacy", "request_length"]);
    assert_eq!(text_of(field(&r.inputs_redacted, "request_length")), Some("15".to_string()));
    let out = r.outputs_redacted.as_ref().unwrap();
    assert_eq!(text_of(field(out, "output_path")), Some("/p/x.yml".to_string()));
    assert_eq!(text_of(field(out, "validation_status")), Some("executed".to_string()));
    let failed = ask_receipt("http://localhost:8088", "m", "p", "q", None, false, Some("YAML parse error: x"));
    assert_eq!(failed.status, ReceiptStatus::Failed);
    assert_eq!(failed.error.as_deref(), Some("YAML parse error: x"));
    assert_eq!(keys(failed.outputs_redacted.as_ref().unwrap()), vec!["validation_status"]);
}

#[test]
fn test_ask_replaces_example_uuid_with_fresh_uuid() {
    let mut plan = list_plan(EXAMPLE_PLAN_ID, "List Downloads folder");
    refresh_example_id(&mut plan);
    assert_ne!(plan.id, EXAMPLE_PLAN_ID);
    let u = uuid::Uuid::from_u128(plan.id);
    assert_eq!(u.get_version_num(), 4);
    let mut other = list_plan(42, "Other");
    refresh_example_id(&mut other);
    assert_eq!(other.id, 42);
    assert_eq!(
        uuid::Uuid::from_u128(EXAMPLE_PLAN_ID).hyphenated().to_string(),
        "00000000-0000-4000-8000-000000000001"
    );
}

#[test]
fn test_ask_saves_valid_plan() {
    let accepted = accept_generated_plan(Ok(list_plan(7, "List")), "yaml").unwrap();
    assert_eq!(accepted.id, 7);
    assert_eq!(accepted.title, "List");
    let fresh = accept_generated_plan(Ok(list_plan(EXAMPLE_PLAN_ID, "List")), "yaml").unwrap();
    assert_ne!(fresh.id, EXAMPLE_PLAN_ID);
}

#[test]
fn test_ask_invalid_yaml_returns_nonzero() {
    let refusal = accept_generated_plan(Err("expected a mapping".to_string()), "not: [valid").unwrap_err();
    assert_eq!(refusal.receipt_error, "YAML parse error: expected a mapping");
    assert_eq!(refusal.message, "Model returned invalid YAML: expected a mapping\nRaw response: not: [valid");
}

#[test]
fn test_ask_with_plan_instead_of_steps_fails_cleanly() {
    let mut plan = list_plan(9, "No steps");
    plan.steps.clear();
    let refusal = accept_generated_plan(Ok(plan), "plan: []").unwrap_err();
    assert_eq!(refusal.receipt_error, "Validation error: steps must not be empty");
    assert_eq!(refusal.message, "Generated plan is invalid: steps must not be empty\nYAML:\nplan: []");
}

#[test]
fn long_raw_responses_are_cut_to_two_hundred_chars() {
    let long = "é".repeat(250);
    let refusal = accept_generated_plan(Err("e".to_string()), &long).unwrap_err();
    assert_eq!(refusal.message, format!("Model returned invalid YAML: e\nRaw response: {}", "é".repeat(200)));
    assert_eq!(take_chars("abc", 2), "ab");
    assert_eq!(take_chars("abc", 5), "abc");
}

#[test]
fn ask_file_names_use_slug_and_time() {
    assert_eq!(ask_file_name("List my Downloads folder please", 1700000000), "list-my-downloads-1700000000.yml");
    assert_eq!(ask_file_name("", 0), "-0.yml");
}

#[test]
fn router_failures_are_reported_with_their_cause() {
    assert_eq!(
        osai::model::router_status_error("500 Internal Server Error", "boom"),
        "Model router returned error 500 Internal Server Error: boom"
    );
    assert_eq!(
        osai::model::router_call_failed("Model response missing content"),
        "Model router call failed: Model response missing content"
    );
}
