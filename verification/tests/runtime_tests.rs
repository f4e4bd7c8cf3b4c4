use osai::json::{JsonMap, JsonValue, NamedMap};
use osai::runtime::{
    check_systemd_services, generate_hints, infer_overall_health, infer_runtime_mode, llamacpp_status,
    model_router_status, osai_api_status, parse_systemd_show, stack_service_names, ComponentStatus,
    ComponentStatusMap, HttpProbe, OverallHealth, RuntimeMode, RuntimePaths, RuntimeStatusBuilder,
    SystemdServiceStatus, SystemdStatus,
};

fn component(url: &str, reachable: bool, healthy: bool, http: Option<u16>, error: Option<&str>) -> ComponentStatus {
    ComponentStatus {
        url: url.to_string(),
        reachable,
        healthy,
        http_status: http,
        service: None,
        version: None,
        models: None,
        error: error.map(|e| e.to_string()),
    }
}

fn service(active: bool, sub: &str) -> SystemdServiceStatus {
    SystemdServiceStatus {
        installed: true,
        enabled: true,
        active,
        load_state: Some("loaded".to_string()),
        sub_state: Some(sub.to_string()),
        error: None,
    }
}

fn services_with(name: &str, status: SystemdServiceStatus) -> NamedMap<SystemdServiceStatus> {
    let mut m = NamedMap::new();
    m.insert(name.to_string(), status);
    m
}

fn object(pairs: Vec<(&str, JsonValue)>) -> JsonValue {
    JsonValue::Object(JsonMap { entries: pairs.into_iter().map(|(k, v)| (k.to_string(), v)).collect() })
}

#[test]
fn test_runtime_mode_systemd_inference() {
    let mut components = ComponentStatusMap::new();
    components.insert("llamacpp".to_string(), component("http://127.0.0.1:8092/v1", true, true, Some(200), None));
    let systemd = SystemdStatus {
        available: true,
        services: Some(services_with("osai-llamacpp.service", service(true, "running"))),
    };
    let mode = infer_runtime_mode(&components, &systemd);
    assert_eq!(mode, RuntimeMode::Systemd);
}

#[test]
fn test_runtime_mode_manual_inference() {
    let mut components = ComponentStatusMap::new();
    components.insert("llamacpp".to_string(), component("http://127.0.0.1:8092/v1", true, true, Some(200), None));
    let systemd = SystemdStatus {
        available: true,
        services: Some(services_with("osai-llamacpp.service", service(false, "dead"))),
    };
    let mode = infer_runtime_mode(&components, &systemd);
    assert_eq!(mode, RuntimeMode::Manual);
}

#[test]
fn test_runtime_mode_partial_inference() {
    let mut components = ComponentStatusMap::new();
    components.insert("llamacpp".to_string(), component("http://127.0.0.1:8092/v1", true, true, Some(200), None));
    components.insert(
        "model_router".to_string(),
        component("http://127.0.0.1:8088", false, false, None, Some("connection refused")),
    );
    let systemd = SystemdStatus { available: false, services: None };
    let mode = infer_runtime_mode(&components, &systemd);
    assert_eq!(mode, RuntimeMode::Partial);
}

#[test]
fn test_runtime_mode_all_stopped() {
    let components = ComponentStatusMap::new();
    let systemd = SystemdStatus { available: false, services: None };
    let mode = infer_runtime_mode(&components, &systemd);
    assert_eq!(mode, RuntimeMode::Unknown);
}

#[test]
fn test_overall_health_inference() {
    let mut components = ComponentStatusMap::new();
    components.insert("test".to_string(), component("http://127.0.0.1:8088", true, true, Some(200), None));
    let overall = infer_overall_health(&components, RuntimeMode::Systemd);
    assert_eq!(overall, OverallHealth::Healthy);
}

#[test]
fn test_overall_health_degraded() {
    let mut components = ComponentStatusMap::new();
    components.insert("llamacpp".to_string(), component("http://127.0.0.1:8092/v1", true, true, Some(200), None));
    components.insert("model_router".to_string(), component("http://127.0.0.1:8088", false, false, None, None));
    let overall = infer_overall_health(&components, RuntimeMode::Partial);
    assert_eq!(overall, OverallHealth::Degraded);
}

#[test]
fn test_systemd_unavailable_does_not_fail() {
    let components = ComponentStatusMap::new();
    let systemd = SystemdStatus { available: false, services: None };
    let mode = infer_runtime_mode(&components, &systemd);
    assert_eq!(mode, RuntimeMode::Unknown);
    let overall = infer_overall_health(&components, mode);
    assert_eq!(overall, OverallHealth::Unknown);
}

#[test]
fn test_builder_produces_valid_runtime_status() {
    let mut llama = component("http://127.0.0.1:8092/v1", true, true, Some(200), None);
    llama.service = Some("llama.cpp".to_string());
    let paths = RuntimePaths {
        repo_root: "/repo".to_string(),
        plans_dir: "/plans".to_string(),
        chat_receipts_dir: "/chat".to_string(),
        ask_receipts_dir: "/ask".to_string(),
        apply_receipts_dir: "/apply".to_string(),
        model_router_receipts_dir: None,
        local_model_path: None,
        llamacpp_binary_path: None,
    };
    let status = RuntimeStatusBuilder::new()
        .add_component("llamacpp", llama)
        .with_systemd(SystemdStatus { available: true, services: Some(NamedMap::new()) })
        .build(paths);
    assert!(status.ok);
    assert!(status.components.contains_key("llamacpp"));
}

#[test]
fn test_hint_generation_when_llamacpp_down() {
    let mut components = ComponentStatusMap::new();
    components.insert(
        "llamacpp".to_string(),
        component("http://127.0.0.1:8092/v1", false, false, None, Some("connection refused")),
    );
    let hints = generate_hints(&components, &SystemdStatus { available: false, services: None }, RuntimeMode::Stopped);
    assert!(hints.iter().any(|h| h.contains("llama.cpp")));
}

#[test]
fn systemd_show_output_is_parsed_by_its_last_lines() {
    let out = "Id=osai-api.service\nLoadState=loaded\r\nActiveState=active\nSubState=running\nUnitFileState=enabled\n";
    let st = parse_systemd_show(out);
    assert!(st.installed && st.enabled && st.active);
    assert_eq!(st.load_state, Some("loaded".to_string()));
    assert_eq!(st.sub_state, Some("running".to_string()));
    let st = parse_systemd_show("LoadState=not-found\nActiveState=inactive\nUnitFileState=disabled");
    assert!(st.installed && !st.enabled && !st.active);
    let st = parse_systemd_show("");
    assert!(!st.installed && !st.enabled && !st.active && st.load_state.is_none());
}

#[test]
fn every_stack_service_is_reported() {
    let names = stack_service_names();
    assert_eq!(names[0], "osai-llamacpp.service");
    let outputs = vec![Some("ActiveState=active\nLoadState=loaded".to_string()), None, None, None];
    let services = check_systemd_services(true, &outputs).unwrap();
    assert_eq!(services.len(), 4);
    assert!(services.get("osai-llamacpp.service").unwrap().active);
    assert!(!services.get("osai-vllm.service").unwrap().installed);
}

#[test]
fn no_services_without_systemd() {
    let outputs = vec![Some("ActiveState=active\nLoadState=loaded".to_string()), None, None, None];
    assert!(check_systemd_services(false, &outputs).is_none());
}

#[test]
fn probes_become_component_statuses() {
    let body = object(vec![(
        "models",
        JsonValue::Array(vec![
            object(vec![("name", JsonValue::Str("gemma.gguf".to_string()))]),
            object(vec![("model", JsonValue::Str("other".to_string()))]),
            object(vec![("name", JsonValue::Bool(true)), ("model", JsonValue::Str("skipped".to_string()))]),
        ]),
    )]);
    let c = llamacpp_status("http://127.0.0.1:8092/v1", &HttpProbe::Answered(200, Some(body)));
    assert!(c.healthy && c.reachable);
    assert_eq!(c.models, Some(vec!["gemma.gguf".to_string(), "other".to_string()]));
    let c = llamacpp_status("u", &HttpProbe::Answered(503, None));
    assert!(c.reachable && !c.healthy);
    assert_eq!(c.error, Some("HTTP 503".to_string()));
    let c = model_router_status("u", &HttpProbe::Unreachable("refused".to_string()));
    assert_eq!(c.service, Some("osai-model-router".to_string()));
    assert_eq!(c.error, Some("connection refused: refused".to_string()));
    let body = object(vec![("service", JsonValue::Str("api".to_string())), ("version", JsonValue::Str("0.1.0".to_string()))]);
    let c = osai_api_status("u", &HttpProbe::Answered(200, Some(body)));
    assert_eq!(c.service, Some("api".to_string()));
    assert_eq!(c.version, Some("0.1.0".to_string()));
    assert!(c.error.is_none());
}

#[test]
fn healthy_means_every_component_is_up() {
    let mut components = ComponentStatusMap::new();
    components.insert("a".to_string(), component("u", true, true, Some(200), None));
    components.insert("b".to_string(), component("u", true, true, Some(200), None));
    let systemd = SystemdStatus { available: false, services: None };
    let mode = infer_runtime_mode(&components, &systemd);
    assert_eq!(mode, RuntimeMode::Manual);
    assert_eq!(infer_overall_health(&components, mode), OverallHealth::Healthy);
    components.insert("b".to_string(), component("u", false, false, None, None));
    let mode = infer_runtime_mode(&components, &systemd);
    assert_ne!(infer_overall_health(&components, mode), OverallHealth::Healthy);
}

#[test]
fn default_builder_reports_an_unknown_runtime() {
    let paths = RuntimePaths {
        repo_root: "/repo".to_string(),
        plans_dir: "/plans".to_string(),
        chat_receipts_dir: "/chat".to_string(),
        ask_receipts_dir: "/ask".to_string(),
        apply_receipts_dir: "/apply".to_string(),
        model_router_receipts_dir: None,
        local_model_path: None,
        llamacpp_binary_path: None,
    };
    let status = RuntimeStatusBuilder::default().add_hint("custom hint").build(paths);
    assert_eq!(status.runtime_mode, RuntimeMode::Unknown);
    assert_eq!(status.overall, OverallHealth::Unknown);
    assert!(!status.systemd.available);
    assert_eq!(status.hints, vec!["custom hint".to_string()]);
}
