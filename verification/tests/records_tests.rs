use osai::json::{JsonMap, JsonValue};
use osai::plan::{ActionKind, ApprovalMode, OsaiPlan, PlanStep, RiskLevel};
use osai::records::{
    approval_name, default_receipts_root, file_extension, is_plan_file, is_receipt_file, is_redact_key_exec,
    kind_selected, plan_summary, plans_list_response, receipt_dirs, receipt_kind, receipt_read_value,
    receipt_summary, receipts_list_response, redact_secrets, sort_file_names, text_le_exec, PlanFile, PlanSummary,
    ReceiptSummary,
};

fn obj(pairs: Vec<(&str, JsonValue)>) -> JsonValue {
    JsonValue::Object(JsonMap { entries: pairs.into_iter().map(|(k, v)| (k.to_string(), v)).collect() })
}

fn s(t: &str) -> JsonValue {
    JsonValue::Str(t.to_string())
}

fn json_eq(a: &JsonValue, b: &JsonValue) -> bool {
    match (a, b) {
        (JsonValue::Null, JsonValue::Null) => true,
        (JsonValue::Bool(x), JsonValue::Bool(y)) => x == y,
        (JsonValue::Number(x), JsonValue::Number(y)) => x == y,
        (JsonValue::Str(x), JsonValue::Str(y)) => x == y,
        (JsonValue::Array(xs), JsonValue::Array(ys)) => {
            xs.len() == ys.len() && xs.iter().zip(ys.iter()).all(|(x, y)| json_eq(x, y))
        },
        (JsonValue::Object(m), JsonValue::Object(n)) => {
            m.entries.len() == n.entries.len()
                && m.entries.iter().zip(n.entries.iter()).all(|(x, y)| x.0 == y.0 && json_eq(&x.1, &y.1))
        },
        _ => false,
    }
}

fn get<'a>(v: &'a JsonValue, key: &str) -> &'a JsonValue {
    match v {
        JsonValue::Object(m) => m.get(key).unwrap(),
        _ => panic!("not an object"),
    }
}

fn receipt_entry(name: &str, modified: u64) -> ReceiptSummary {
    ReceiptSummary {
        path: format!("/r/{}", name),
        filename: name.to_string(),
        modified_unix: modified,
        size_bytes: 1,
        kind: "chat".to_string(),
        id: name.to_string(),
        status: "unknown".to_string(),
        action: "unknown".to_string(),
        actor: "unknown".to_string(),
    }
}

fn plan_entry(name: &str, modified: u64) -> PlanSummary {
    plan_summary(&format!("/p/{}", name), name, modified, 10, &PlanFile::Unreadable)
}

#[test]
fn test_receipts_secret_redaction() {
    let value = obj(vec![
        ("api_key", s("secret123")),
        ("token", s("mytoken")),
        ("password", s("hunter2")),
        ("action", s("test")),
        ("id", s("abc")),
    ]);
    let redacted = redact_secrets(&value);
    assert!(json_eq(get(&redacted, "api_key"), &s("[REDACTED]")));
    assert!(json_eq(get(&redacted, "token"), &s("[REDACTED]")));
    assert!(json_eq(get(&redacted, "password"), &s("[REDACTED]")));
    assert!(json_eq(get(&redacted, "action"), &s("test")));
    assert!(json_eq(get(&redacted, "id"), &s("abc")));
}

#[test]
fn redaction_reaches_nested_values_and_ignores_case() {
    let value = obj(vec![
        ("inputs", obj(vec![("Authorization", s("Bearer x")), ("path", s("/tmp"))])),
        ("list", JsonValue::Array(vec![obj(vec![("SECRET", s("s"))]), s("plain")])),
        ("count", JsonValue::Number("3".to_string())),
    ]);
    let r = redact_secrets(&value);
    let inputs = get(&r, "inputs");
    assert!(json_eq(get(inputs, "Authorization"), &s("[REDACTED]")));
    assert!(json_eq(get(inputs, "path"), &s("/tmp")));
    match get(&r, "list") {
        JsonValue::Array(xs) => {
            assert!(json_eq(get(&xs[0], "SECRET"), &s("[REDACTED]")));
            assert!(json_eq(&xs[1], &s("plain")));
        },
        _ => panic!("list should stay a list"),
    }
    assert!(json_eq(get(&r, "count"), &JsonValue::Number("3".to_string())));
    assert!(json_eq(&redact_secrets(&r), &r));
}

#[test]
fn secret_keys_are_recognized() {
    assert!(is_redact_key_exec("api_key"));
    assert!(is_redact_key_exec("Credential"));
    assert!(!is_redact_key_exec("api_keys"));
    assert!(!is_redact_key_exec("id"));
}

#[test]
fn receipts_read_back_are_redacted() {
    let v = obj(vec![("token", s("t"))]);
    assert!(json_eq(get(&receipt_read_value(Some(&v)), "token"), &s("[REDACTED]")));
    assert!(json_eq(&receipt_read_value(None), &JsonValue::Null));
}

#[test]
fn extensions_follow_the_last_dot() {
    assert_eq!(file_extension("plan.yml"), Some("yml".to_string()));
    assert_eq!(file_extension("archive.tar.gz"), Some("gz".to_string()));
    assert_eq!(file_extension(".hidden"), None);
    assert_eq!(file_extension("noext"), None);
    assert_eq!(file_extension(".."), None);
    assert_eq!(file_extension("trailing."), Some(String::new()));
    assert!(is_plan_file("a.yaml") && is_plan_file("a.json") && is_plan_file("a.yml"));
    assert!(!is_plan_file("a.txt"));
    assert!(is_receipt_file("r.json"));
    assert!(!is_receipt_file("r.yml"));
}

#[test]
fn listings_come_newest_first_and_keep_ties_in_order() {
    let entries = vec![receipt_entry("a", 10), receipt_entry("b", 30), receipt_entry("c", 10), receipt_entry("d", 20)];
    let r = receipts_list_response(entries, 50);
    assert!(r.ok);
    let names: Vec<&str> = r.receipts.iter().map(|e| e.filename.as_str()).collect();
    assert_eq!(names, vec!["b", "d", "a", "c"]);
}

#[test]
fn listings_respect_the_limit() {
    let entries = vec![plan_entry("x.yml", 1), plan_entry("y.yml", 3), plan_entry("z.yml", 2)];
    let r = plans_list_response("/p", entries, 2);
    assert_eq!(r.plans_dir, "/p");
    let names: Vec<&str> = r.plans.iter().map(|e| e.filename.as_str()).collect();
    assert_eq!(names, vec!["y.yml", "z.yml"]);
    let empty = plans_list_response("/p", vec![], 5);
    assert!(empty.plans.is_empty());
}

#[test]
fn plan_summaries_describe_parsed_plans() {
    let plan = OsaiPlan {
        version: "0.1".to_string(),
        id: 7,
        title: "List Downloads".to_string(),
        description: None,
        actor: "user".to_string(),
        risk: RiskLevel::Low,
        approval: ApprovalMode::Auto,
        steps: vec![PlanStep {
            id: "step-1".to_string(),
            action: ActionKind::FilesList,
            description: "list".to_string(),
            requires_approval: false,
            inputs: JsonMap::new(),
        }],
        rollback: None,
        metadata: JsonMap::new(),
    };
    let sm = plan_summary("/p/a.yml", "a.yml", 5, 99, &PlanFile::Parsed(plan));
    assert_eq!(sm.title, "List Downloads");
    assert_eq!(sm.risk, "Low");
    assert_eq!(sm.approval, "Auto");
    assert_eq!(sm.steps, 1);
    assert!(sm.valid);
    assert!(sm.error.is_none());
    let bad = plan_summary("/p/b.yml", "b.yml", 5, 99, &PlanFile::Unparsable("oops".to_string()));
    assert!(!bad.valid);
    assert_eq!(bad.error, Some("parse error: oops".to_string()));
    let unreadable = plan_summary("/p/c.yml", "c.yml", 5, 99, &PlanFile::Unreadable);
    assert_eq!(unreadable.error, Some("failed to read file".to_string()));
}

#[test]
fn receipt_summaries_read_their_fields() {
    let v = obj(vec![("id", s("r1")), ("status", s("executed")), ("action", s("FilesList")), ("actor", JsonValue::Null)]);
    let sm = receipt_summary("/r/x.json", "x.json", 1, 2, "apply", Some(&v));
    assert_eq!(sm.id, "r1");
    assert_eq!(sm.status, "executed");
    assert_eq!(sm.action, "FilesList");
    assert_eq!(sm.actor, "unknown");
    assert_eq!(sm.kind, "apply");
    let raw = receipt_summary("/r/abc.json", "abc.json", 1, 2, "chat", None);
    assert_eq!(raw.id, "abc");
    assert_eq!(raw.status, "unknown");
}

#[test]
fn kinds_and_filters() {
    assert!(kind_selected(None, "chat"));
    assert!(kind_selected(Some("all"), "chat"));
    assert!(kind_selected(Some("chat"), "chat"));
    assert!(!kind_selected(Some("ask"), "chat"));
    assert_eq!(receipt_kind("Model-Router"), "model-router");
    assert_eq!(approval_name(ApprovalMode::AlwaysDeny), "AlwaysDeny");
}

#[test]
fn receipt_directories_cover_every_kind() {
    assert_eq!(default_receipts_root(Some("/d")), "/d/osai/receipts");
    assert_eq!(default_receipts_root(None), "./osai/receipts");
    assert_eq!(
        receipt_dirs(Some("/d")),
        vec![
            "/d/osai/receipts/chat".to_string(),
            "/d/osai/receipts/ask".to_string(),
            "/d/osai/receipts/apply".to_string(),
            "/d/osai/receipts/tool".to_string(),
            "/d/osai/receipts/model-router".to_string(),
        ]
    );
}

#[test]
fn receipt_files_are_listed_by_name() {
    let names = vec![
        "20240102T000000Z-b.json".to_string(),
        "20240101T000000Z-z.json".to_string(),
        "20240102T000000Z-a.json".to_string(),
        "20240101T000000Z-z.json".to_string(),
    ];
    assert_eq!(
        sort_file_names(names),
        vec![
            "20240101T000000Z-z.json".to_string(),
            "20240101T000000Z-z.json".to_string(),
            "20240102T000000Z-a.json".to_string(),
            "20240102T000000Z-b.json".to_string(),
        ]
    );
    assert!(sort_file_names(vec![]).is_empty());
}

#[test]
fn names_compare_by_code_points() {
    assert!(text_le_exec("a", "ab"));
    assert!(!text_le_exec("ab", "a"));
    assert!(text_le_exec("B", "a"));
    assert!(!text_le_exec("b", "B"));
    assert!(text_le_exec("", ""));
    assert!(text_le_exec("z", "\u{e9}"));
}
