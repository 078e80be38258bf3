use mcp_manager::config::{ClaudeConfig, McpServer};
use mcp_manager::lifecycle::{
    check_port, validate_mcp_port, AppSettings, PortCheck, ServerLifecycle, StartCheck,
    StartOutcome,
};
use mcp_manager::messages::with_number;
use mcp_manager::name_map::NameMap;
use mcp_manager::presets::{
    filter_presets, get_preset_server_by_name, get_preset_server_categories,
    get_preset_servers, get_preset_servers_by_category, get_preset_servers_by_type,
    get_preset_servers_database, get_server_types, install_edit, presets_not_installed,
    validate_server_config, PresetFilter, PresetServerSanitized, ServerType,
};
use mcp_manager::tools::{
    list_servers, server_details, server_infos, AddMcpServerRequest, McpServerInfoSanitized,
    UpdateMcpServerRequest,
};

fn env_of(pairs: &[(&str, &str)]) -> NameMap<String> {
    let mut m = NameMap::new();
    for (k, v) in pairs {
        m.insert(k.to_string(), v.to_string());
    }
    m
}

fn entry(command: &str, env: Option<NameMap<String>>) -> McpServer {
    McpServer { command: command.to_string(), args: vec!["--flag".to_string()], env }
}

fn enabled_settings(port: u16) -> AppSettings {
    let mut s = AppSettings::default();
    s.mcp_server_enabled = true;
    s.mcp_server_port = port;
    s
}

fn rendered(s: &McpServerInfoSanitized) -> String {
    format!("{}|{}|{}|{}", s.name, s.command, s.args.join(","), s.env_keys.join(","))
}

#[test]
fn listing_is_sorted_by_name_whatever_the_insertion_order() {
    let mut c = ClaudeConfig::new();
    c.mcp_servers.insert("b".to_string(), entry("npx", None));
    c.mcp_servers.insert("a".to_string(), entry("uvx", None));
    let names: Vec<String> = list_servers(&c).into_iter().map(|s| s.name).collect();
    assert_eq!(names, vec!["a".to_string(), "b".to_string()]);
    let infos = server_infos(&c);
    assert_eq!(infos.len(), 2);
    assert_eq!(infos[0].command, "uvx");
    assert_eq!(infos[1].env.len(), 0);
}

#[test]
fn sanitized_listing_names_variables_but_not_values() {
    let mut c = ClaudeConfig::new();
    let env = env_of(&[("API_KEY", "s3cr3t-value"), ("REGION", "eu-west-9")]);
    c.mcp_servers.insert("svc".to_string(), entry("npx", Some(env)));
    let listed = list_servers(&c);
    assert_eq!(listed[0].env_keys, vec!["API_KEY".to_string(), "REGION".to_string()]);
    let text = rendered(&listed[0]);
    assert!(!text.contains("s3cr3t-value"));
    assert!(!text.contains("eu-west-9"));
}

#[test]
fn details_are_sanitized_and_missing_names_are_reported() {
    let mut c = ClaudeConfig::new();
    c.mcp_servers.insert("svc".to_string(), entry("npx", Some(env_of(&[("TOKEN", "abc123")]))));
    let info = server_details(&c, &"svc".to_string()).ok().unwrap();
    assert_eq!(info.env.get("TOKEN"), Some(&"abc123".to_string()));
    let s = McpServerInfoSanitized::from_server_info(&info);
    assert_eq!(s.env_keys, vec!["TOKEN".to_string()]);
    assert!(!rendered(&s).contains("abc123"));
    let missing = server_details(&c, &"nope".to_string()).err().unwrap();
    assert_eq!(missing, "Server 'nope' not found");
}

#[test]
fn start_when_disabled_refuses_and_stays_stopped() {
    let mut life = ServerLifecycle::new();
    let settings = AppSettings::default();
    assert_eq!(life.begin_start(&settings), StartCheck::Refused(StartOutcome::Disabled));
    assert_eq!(life.finish_start(&settings, true), StartOutcome::Disabled);
    assert!(!life.status().running);
    assert!(life.cancellation_handle().is_none());
    let r = StartOutcome::Disabled.to_result();
    assert!(!r.success);
    assert_eq!(r.message, "MCP server is disabled in settings");
}

#[test]
fn second_start_refuses_and_keeps_the_first_port() {
    let mut life = ServerLifecycle::new();
    let s1 = enabled_settings(8765);
    assert_eq!(life.begin_start(&s1), StartCheck::Probe { port: 8765 });
    assert_eq!(life.finish_start(&s1, true), StartOutcome::Started { port: 8765 });
    let st = life.status();
    assert!(st.running);
    assert_eq!(st.port, Some(8765));
    assert_eq!(st.url, Some("http://127.0.0.1:8765/sse".to_string()));
    assert_eq!(st.sse_path, Some("/sse".to_string()));
    assert!(life.cancellation_handle().is_some());
    let s2 = enabled_settings(9999);
    assert_eq!(life.finish_start(&s2, true), StartOutcome::AlreadyRunning);
    assert_eq!(life.status().port, Some(8765));
    assert_eq!(StartOutcome::Started { port: 8765 }.to_result().message, "MCP server started on port 8765");
}

#[test]
fn busy_port_refuses_the_start() {
    let mut life = ServerLifecycle::new();
    let s = enabled_settings(8000);
    assert_eq!(life.finish_start(&s, false), StartOutcome::PortInUse { port: 8000 });
    assert!(!life.status().running);
    assert_eq!(StartOutcome::PortInUse { port: 8000 }.to_result().message, "Port 8000 is already in use");
}

#[test]
fn stop_reports_stopped_at_once_and_cancels_the_handle() {
    let mut life = ServerLifecycle::new();
    let s = enabled_settings(8123);
    let _ = life.finish_start(&s, true);
    let token = life.cancellation_handle().unwrap();
    let r = life.stop();
    assert!(r.success);
    assert_eq!(r.message, "MCP server stopped");
    assert!(token.is_cancelled());
    let st = life.status();
    assert!(!st.running);
    assert_eq!(st.port, None);
    assert_eq!(st.url, None);
    assert!(life.cancellation_handle().is_none());
    let again = life.stop();
    assert!(again.success);
}

#[test]
fn server_failure_resets_the_status() {
    let mut life = ServerLifecycle::new();
    let _ = life.finish_start(&enabled_settings(8200), true);
    life.on_server_failed();
    assert!(!life.status().running);
}

#[test]
fn low_ports_are_refused_without_a_probe() {
    assert_eq!(check_port(80), PortCheck::OutOfRange);
    assert_eq!(check_port(1023), PortCheck::OutOfRange);
    assert_eq!(check_port(1024), PortCheck::Probe);
    let r = validate_mcp_port(80, None);
    assert!(!r.success);
    assert_eq!(r.message, "Port must be between 1024 and 65535");
}

#[test]
fn probe_answers_decide_high_ports() {
    let free = validate_mcp_port(40123, Some(true));
    assert!(free.success);
    assert_eq!(free.message, "Port 40123 is available");
    let busy = validate_mcp_port(65535, Some(false));
    assert!(!busy.success);
    assert_eq!(busy.message, "Port 65535 is already in use");
}

#[test]
fn numbers_are_written_in_decimal() {
    assert_eq!(with_number("<", 0, ">"), "<0>");
    assert_eq!(with_number("", 10, ""), "10");
    assert_eq!(with_number("p", 65535, "s"), "p65535s");
}

#[test]
fn settings_default_values() {
    let s = AppSettings::default();
    assert_eq!(s.mcp_server_port, 8000);
    assert_eq!(s.mcp_sse_path, "/sse");
    assert!(!s.mcp_server_enabled);
    assert!(!s.dark_mode);
    assert_eq!(s.claude_config_path, "");
}

#[test]
fn catalog_has_its_presets() {
    let db = get_preset_servers_database();
    assert_eq!(db.len(), 10);
    assert_eq!(db[0].name, "dice");
    assert_eq!(db[9].name, "mcp-manager");
    assert_eq!(get_preset_servers().len(), 10);
    assert!(db.iter().all(|p| p.validate_command_matches_type()));
}

#[test]
fn presets_by_category_keep_catalog_order() {
    let dev: Vec<String> = get_preset_servers_by_category("Development".to_string())
        .into_iter()
        .map(|p| p.name)
        .collect();
    assert_eq!(dev, vec!["context7".to_string(), "docker".to_string(), "mcp-manager".to_string()]);
    assert!(get_preset_servers_by_category("Nothing".to_string()).is_empty());
}

#[test]
fn presets_by_type_ignore_case() {
    let docker: Vec<String> = get_preset_servers_by_type("DOCKER".to_string())
        .into_iter()
        .map(|p| p.name)
        .collect();
    assert_eq!(
        docker,
        vec!["sequential-thinking".to_string(), "openweather".to_string(), "desktop-commander".to_string()]
    );
    assert!(get_preset_servers_by_type("cargo".to_string()).is_empty());
}

#[test]
fn categories_and_types_are_sorted_and_distinct() {
    assert_eq!(
        get_preset_server_categories(),
        vec!["AI Tools", "Development", "Search", "System", "Utilities", "Weather", "Web Tools"]
    );
    assert_eq!(get_server_types(), vec!["docker", "npx", "uvx"]);
}

#[test]
fn preset_lookup_by_name() {
    let p = get_preset_server_by_name("brave-search".to_string()).unwrap();
    assert!(p.requires_api_key);
    assert_eq!(p.api_keys[0].name, "BRAVE_API_KEY");
    assert!(get_preset_server_by_name("absent".to_string()).is_none());
}

#[test]
fn server_type_from_command() {
    assert!(ServerType::from_command("NPX").same_as(&ServerType::Npx));
    assert_eq!(ServerType::from_command("Uv").to_string(), "uv");
    assert_eq!(ServerType::from_command("node").to_string(), "node");
    assert_eq!(ServerType::Other("x".to_string()).to_string(), "x");
    let mut p = get_preset_server_by_name("dice".to_string()).unwrap();
    p.server_type = ServerType::Docker;
    assert!(!validate_server_config(p));
}

#[test]
fn installed_presets_can_be_left_out() {
    let mut c = ClaudeConfig::new();
    c.mcp_servers.insert("dice".to_string(), entry("uvx", None));
    c.mcp_servers.insert("time".to_string(), entry("uvx", None));
    let rest = presets_not_installed(get_preset_servers_database(), &c);
    assert_eq!(rest.len(), 8);
    assert_eq!(rest[0].name, "sequential-thinking");
    let kept = filter_presets(get_preset_servers_database(), PresetFilter::Category("Search"));
    assert_eq!(kept.len(), 1);
}

#[test]
fn install_lays_api_keys_over_the_preset_environment() {
    let mut p = get_preset_server_by_name("openweather".to_string()).unwrap();
    p.env = Some(env_of(&[("A", "1"), ("OWM_API_KEY", "old")]));
    let edit = install_edit(&p, Some(env_of(&[("OWM_API_KEY", "new"), ("Z", "9")])));
    assert_eq!(edit.command, "docker");
    assert_eq!(edit.args, p.args);
    assert_eq!(edit.env.keys(), vec!["A".to_string(), "OWM_API_KEY".to_string(), "Z".to_string()]);
    assert_eq!(edit.env.get("OWM_API_KEY"), Some(&"new".to_string()));
    let bare = install_edit(&get_preset_server_by_name("dice".to_string()).unwrap(), None);
    assert_eq!(bare.env.len(), 0);
}

#[test]
fn sanitized_presets_show_kind_names_and_keys() {
    let mut p = get_preset_server_by_name("brave-search".to_string()).unwrap();
    p.env = Some(env_of(&[("BRAVE_API_KEY", "value-x")]));
    let s = PresetServerSanitized::from_preset_server(&p);
    assert_eq!(s.server_type, "npx");
    assert_eq!(s.env_keys, vec!["BRAVE_API_KEY".to_string()]);
    assert_eq!(s.api_keys.len(), 1);
    assert!(s.requires_api_key);
}

#[test]
fn tool_requests_become_edits() {
    let req = AddMcpServerRequest {
        name: "n".to_string(),
        command: "npx".to_string(),
        args: vec!["a".to_string()],
        env: None,
    };
    let (name, edit) = req.into_edit();
    assert_eq!(name, "n");
    assert_eq!(edit.env.len(), 0);
    let req = UpdateMcpServerRequest {
        name: "m".to_string(),
        command: "uvx".to_string(),
        args: vec![],
        env: Some(env_of(&[("K", "v")])),
    };
    let (name, edit) = req.into_edit();
    assert_eq!(name, "m");
    assert_eq!(edit.env.get("K"), Some(&"v".to_string()));
}
