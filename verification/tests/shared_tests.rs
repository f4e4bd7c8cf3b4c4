use osai::shared::{
    default_policy_path, is_absolute, is_loopback_url, join_strings, plans_dir_for, receipts_dir_for,
    resolve_policy_path, sanitize_yaml_response, slug_from_request,
};

const WORKSPACE: &str = "/home/user/osai-linux";

#[test]
fn test_default_policy_path_is_persistent() {
    let path = default_policy_path(WORKSPACE);
    assert!(is_absolute(&path), "default policy path should be absolute: {}", path);
    assert!(!path.contains("tmp"), "default policy path should not be in tmp: {}", path);
}

#[test]
fn test_resolve_policy_path_none_uses_default() {
    let result = resolve_policy_path(None, WORKSPACE);
    let default = default_policy_path(WORKSPACE);
    assert_eq!(result, default);
}

#[test]
fn test_resolve_policy_path_relative_is_absolute() {
    let result = resolve_policy_path(Some("examples/policies/default-secure.yml"), WORKSPACE);
    assert!(is_absolute(&result), "relative policy path should be resolved to absolute: {}", result);
    assert_eq!(result, "/home/user/osai-linux/examples/policies/default-secure.yml");
}

#[test]
fn test_resolve_policy_path_absolute_unchanged() {
    let result = resolve_policy_path(Some("/tmp/custom.yml"), WORKSPACE);
    assert_eq!(result, "/tmp/custom.yml");
}

#[test]
fn test_default_ask_plans_dir_is_persistent() {
    let plans_dir = plans_dir_for(Some("/home/user/.local/share"));
    assert!(!plans_dir.contains("tmp"), "default plans dir should not be in tmp");
    assert!(plans_dir.contains("osai"), "default plans dir should be under osai");
    assert_eq!(plans_dir, "/home/user/.local/share/osai/plans");
}

#[test]
fn test_is_loopback_url() {
    assert!(is_loopback_url("http://127.0.0.1:8088"));
    assert!(is_loopback_url("http://localhost:8088"));
    assert!(!is_loopback_url("http://example.com:8088"));
    assert!(!is_loopback_url("https://127.0.0.1:8088"));
    assert!(!is_loopback_url("http://0.0.0.0:8088"));
}

#[test]
fn test_is_loopback_url_validation() {
    assert!(is_loopback_url("http://127.0.0.1:8088"));
    assert!(is_loopback_url("http://localhost:8088"));
    assert!(!is_loopback_url("http://0.0.0.0:8088"));
    assert!(!is_loopback_url("http://192.168.1.1:8088"));
    assert!(!is_loopback_url("http://example.com:8088"));
}

#[test]
fn receipts_dirs_are_under_the_data_dir() {
    assert_eq!(receipts_dir_for(Some("/data"), "chat"), "/data/osai/receipts/chat");
    assert_eq!(receipts_dir_for(None, "apply"), "./osai/receipts/apply");
}

#[test]
fn yaml_fences_are_stripped() {
    assert_eq!(sanitize_yaml_response("```yaml\nversion: \"0.1\"\n```"), "version: \"0.1\"");
    assert_eq!(sanitize_yaml_response("  plain: text  "), "plain: text");
    assert_eq!(sanitize_yaml_response("```\nkey: v\n"), "key: v");
}

#[test]
fn slugs_take_three_words() {
    assert_eq!(slug_from_request("List my Downloads folder please"), "list-my-downloads");
    assert_eq!(slug_from_request("  hello, world!  "), "hello--world");
    assert_eq!(slug_from_request(""), "");
}

#[test]
fn strings_join_with_separator() {
    assert_eq!(join_strings(&vec!["a".to_string(), "b".to_string()], ", "), "a, b");
    assert_eq!(join_strings(&vec![], ", "), "");
}
