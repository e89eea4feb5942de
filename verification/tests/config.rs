use ownpager::config::{
    env_or_default, parse_bool, parse_flow_mode, AppConfig, EnvEntry, FlowMode,
    OpenAiRuntimeConfig,
};

fn vars(pairs: &[(&str, &str)]) -> Vec<EnvEntry> {
    pairs
        .iter()
        .map(|(name, value)| EnvEntry { name: name.to_string(), value: value.to_string() })
        .collect()
}

#[test]
fn configuration_defaults() {
    let config = AppConfig::from_vars(None, &vars(&[("OPENAI_API_KEY", "sk")]), "/m").unwrap();
    assert_eq!(config.thinkingroot.gateway_url, "http://127.0.0.1:3001");
    assert_eq!(config.thinkingroot.workspace, "ownpager");
    assert_eq!(config.thinkingroot.default_agent_id, "ownpager");
    assert_eq!(config.thinkingroot.prompt_name, "main");
    assert_eq!(config.thinkingroot.top_k, 6);
    assert_eq!(config.thinkingroot.max_tools, 4);
    assert_eq!(config.thinkingroot.node_binary, "node");
    assert_eq!(
        config.thinkingroot.sdk_bridge_script,
        "/m/scripts/thinkingroot_sdk_bridge.mjs"
    );
    assert!(config.thinkingroot.project_key.is_none());
    assert_eq!(config.openai.base_url, "https://api.openai.com/v1");
    assert_eq!(config.openai.model, "gpt-4.1-mini");
    assert_eq!(config.openai.timeout_seconds, 60);
    assert_eq!(config.agent.max_tool_iterations, 3);
    assert_eq!(config.agent.routed_tool_top_k, 8);
    assert_eq!(config.agent.terminal_timeout_seconds, 30);
    assert_eq!(config.agent.terminal_max_output_bytes, 65536);
    assert!(!config.agent.allow_local_terminal);
    assert!(config.agent.branch_per_run);
    assert_eq!(config.agent.branch_parent, "main");
    assert!(config.agent.branch_merge_policy.is_none());
    assert!(config.agent.flow_id.is_none());
    assert_eq!(config.agent.flow_mode, FlowMode::Auto);
    assert_eq!(config.agent.flow_poll_interval_ms, 1000);
    assert_eq!(config.agent.flow_timeout_seconds, 180);
}

#[test]
fn configuration_reads_the_environment() {
    let config = AppConfig::from_vars(
        Some("hint".to_string()),
        &vars(&[
            ("OPENAI_API_KEY", "sk"),
            ("THINKINGROOT_BASE_URL", " http://base "),
            ("THINKINGROOT_API_KEY", " key "),
            ("OWNPAGER_MAX_TOOL_ITERATIONS", "5"),
            ("OWNPAGER_ALLOW_LOCAL_TERMINAL", "Yes"),
            ("OWNPAGER_BRANCH_PER_RUN", "off"),
            ("OWNPAGER_FLOW_MODE", "FORCE"),
            ("OWNPAGER_FLOW_ID", " demo "),
            ("THINKINGROOT_TOP_K", "x"),
        ]),
        "/m",
    )
    .unwrap();
    assert_eq!(config.thinkingroot.gateway_url, "http://base");
    assert_eq!(config.thinkingroot.project_key.as_deref(), Some("key"));
    assert_eq!(config.thinkingroot.workspace, "hint");
    assert_eq!(config.thinkingroot.top_k, 6);
    assert_eq!(config.agent.max_tool_iterations, 5);
    assert!(config.agent.allow_local_terminal);
    assert!(!config.agent.branch_per_run);
    assert_eq!(config.agent.flow_mode, FlowMode::Always);
    assert_eq!(config.agent.flow_id.as_deref(), Some("demo"));
    assert_eq!(config.default_workspace.as_deref(), Some("hint"));
}

#[test]
fn missing_or_blank_api_key_is_refused() {
    let message = "OPENAI_API_KEY is required for full agent turns";
    assert_eq!(OpenAiRuntimeConfig::from_vars(&vars(&[])).unwrap_err(), message);
    assert_eq!(
        OpenAiRuntimeConfig::from_vars(&vars(&[("OPENAI_API_KEY", "  ")])).unwrap_err(),
        message
    );
    assert!(AppConfig::from_vars(None, &vars(&[]), "/m").is_err());
}

#[test]
fn booleans_and_flow_modes() {
    assert!(parse_bool(" TRUE "));
    assert!(parse_bool("y"));
    assert!(!parse_bool("no"));
    assert_eq!(parse_flow_mode("disabled"), FlowMode::Off);
    assert_eq!(parse_flow_mode(" 1 "), FlowMode::Always);
    assert_eq!(parse_flow_mode("whatever"), FlowMode::Auto);
    assert_eq!(
        env_or_default(&vars(&[("A", "  ")]), "A", "d".to_string()),
        "d"
    );
    assert_eq!(
        env_or_default(&vars(&[("A", " v ")]), "A", "d".to_string()),
        "v"
    );
}
