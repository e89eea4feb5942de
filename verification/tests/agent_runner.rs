use ownpager::agent_runner::{
    asks_for_terminal_or_workspace_inspection, build_instructions, build_terminal_request,
    build_tool_iteration_limit_answer, derive_turn_branch_id, extract_sentences,
    flow_final_answer, function_call_output, is_flow_failure_status, is_flow_success_status,
    looks_like_complex_task, merge_openai_usage, openai_root_function_tool_name,
    sanitize_branch_component, select_flow_id, truncate_for_answer, user_message,
    ToolRegistry,
};
use ownpager::config::{AgentRuntimeConfig, FlowMode};
use ownpager::json::{JsonMember, JsonValue};
use ownpager::openai_responses::OpenAiTokenUsage;
use ownpager::types::{
    AgentToolExecutionRecord, AgentTurnUsageEstimate, PreparedTurnRequest, RetrievalMode,
    SourceMetadata, SourceType, ThinkingRootCapsule, ThinkingRootFlowRun,
};

fn object(members: Vec<(&str, JsonValue)>) -> JsonValue {
    JsonValue::Object(
        members
            .into_iter()
            .map(|(key, value)| JsonMember { key: key.to_string(), value })
            .collect(),
    )
}

fn text(s: &str) -> JsonValue {
    JsonValue::String(s.to_string())
}

fn str_member<'a>(v: &'a JsonValue, key: &str) -> Option<&'a str> {
    match v {
        JsonValue::Object(members) => members.iter().find(|m| m.key == key).and_then(|m| match &m.value {
            JsonValue::String(s) => Some(s.as_str()),
            _ => None,
        }),
        _ => None,
    }
}

fn config(mode: FlowMode, flow_id: Option<&str>) -> AgentRuntimeConfig {
    AgentRuntimeConfig {
        max_tool_iterations: 2,
        routed_tool_top_k: 8,
        terminal_timeout_seconds: 5,
        terminal_max_output_bytes: 4096,
        allow_local_terminal: true,
        branch_per_run: true,
        branch_parent: "main".to_string(),
        branch_merge_policy: None,
        flow_id: flow_id.map(str::to_string),
        flow_mode: mode,
        flow_poll_interval_ms: 1,
        flow_timeout_seconds: 5,
    }
}

#[test]
fn complex_tasks_are_recognised() {
    assert!(looks_like_complex_task("Do this step by step"));
    assert!(looks_like_complex_task("Research competitors and write a report"));
    assert!(!looks_like_complex_task("Write a poem"));
    assert!(looks_like_complex_task("first this, THEN that"));
}

#[test]
fn flow_selection_follows_the_mode() {
    let complex = "Research competitors, then write a report.";
    assert_eq!(select_flow_id(&config(FlowMode::Auto, Some("f")), complex).as_deref(), Some("f"));
    assert_eq!(select_flow_id(&config(FlowMode::Auto, Some("f")), "hi"), None);
    assert_eq!(select_flow_id(&config(FlowMode::Always, Some("f")), "hi").as_deref(), Some("f"));
    assert_eq!(select_flow_id(&config(FlowMode::Off, Some("f")), complex), None);
    assert_eq!(select_flow_id(&config(FlowMode::Always, None), complex), None);
}

#[test]
fn inspection_requests_need_an_action_and_a_local_target() {
    assert!(asks_for_terminal_or_workspace_inspection("List the files in this repo"));
    assert!(!asks_for_terminal_or_workspace_inspection("List three colours"));
    assert!(!asks_for_terminal_or_workspace_inspection("Describe the project"));
}

#[test]
fn flow_statuses() {
    assert!(is_flow_success_status("done"));
    assert!(!is_flow_success_status("Done"));
    assert!(is_flow_failure_status("timed_out"));
    assert!(!is_flow_failure_status("running"));
}

#[test]
fn answers_are_truncated_by_characters() {
    assert_eq!(truncate_for_answer("héllo", 2), "hé\n...");
    assert_eq!(truncate_for_answer("hi", 2), "hi");
}

fn flow(output: Option<JsonValue>) -> ThinkingRootFlowRun {
    ThinkingRootFlowRun {
        flow_id: "f".to_string(),
        flow_run_id: "r".to_string(),
        status: "completed".to_string(),
        output,
        raw: JsonValue::Null,
    }
}

#[test]
fn flow_answers_take_the_first_non_blank_text() {
    assert_eq!(flow_final_answer(&flow(Some(text("  direct  "))), "\"  direct  \""), "direct");
    let output = object(vec![("answer", text(" ")), ("summary", text(" sum "))]);
    assert_eq!(flow_final_answer(&flow(Some(output)), "{}"), "sum");
    let output = object(vec![("count", JsonValue::Bool(true))]);
    assert_eq!(flow_final_answer(&flow(Some(output)), "{\"count\":true}"), "{\"count\":true}");
    assert_eq!(
        flow_final_answer(&flow(None), ""),
        "ThinkingRoot flow `f` completed with status `completed`."
    );
    assert_eq!(
        flow_final_answer(&flow(Some(JsonValue::Null)), "null"),
        "ThinkingRoot flow `f` completed with status `completed`."
    );
}

#[test]
fn iteration_limit_answer_lists_the_latest_calls_first() {
    assert_eq!(
        build_tool_iteration_limit_answer(3, &vec![]),
        "Stopped after reaching the max tool iteration limit (3). Here is the evidence gathered so far.\nNo tool output was captured before the limit was reached."
    );
    let calls = vec![
        AgentToolExecutionRecord {
            tool_name: "terminal".to_string(),
            arguments: object(vec![("command", text("pwd"))]),
            result: object(vec![
                ("cwd", text("/w")),
                ("status", text("success")),
                ("stdout", text(" /w \n")),
                ("stderr", text("  ")),
            ]),
            routed: true,
        },
        AgentToolExecutionRecord {
            tool_name: "tr_x".to_string(),
            arguments: object(vec![]),
            result: object(vec![("error", text("nope"))]),
            routed: false,
        },
    ];
    assert_eq!(
        build_tool_iteration_limit_answer(2, &calls),
        "Stopped after reaching the max tool iteration limit (2). Here is the evidence gathered so far.\n\nTool call 2: tr_x\n\nTool call 1: terminal\nCommand: pwd\nWorking directory: /w\nStatus: success\nOutput:\n/w"
    );
}

fn prepared() -> PreparedTurnRequest {
    PreparedTurnRequest {
        request_id: 1,
        query_text: "q".to_string(),
        session_key: "k".to_string(),
        workspace_hint: None,
        source: SourceMetadata {
            source_type: SourceType::Cli,
            user_id: None,
            chat_id: None,
            message_id: None,
            cwd: Some("/here".to_string()),
        },
        retrieval_mode: RetrievalMode::PreTurn,
        branch_id: None,
        user_profile_id: None,
    }
}

#[test]
fn terminal_requests_come_from_the_call_arguments() {
    let args = object(vec![("command", text("ls")), ("max_output_bytes", JsonValue::Number(ownpager::json::JsonNumber::Unsigned(9)))]);
    let request = build_terminal_request(&args, &prepared(), 5, 100).unwrap();
    assert_eq!(request.command, "ls");
    assert_eq!(request.workdir.as_deref(), Some("/here"));
    assert_eq!(request.timeout_seconds, Some(5));
    assert_eq!(request.max_output_bytes, Some(9));
    assert_eq!(
        build_terminal_request(&object(vec![]), &prepared(), 5, 100).unwrap_err(),
        "terminal tool call missing command"
    );
}

#[test]
fn branch_ids_and_tool_names() {
    assert_eq!(
        derive_turn_branch_id("Agent One!", "0000abcd-ef12-3456", "  Fix: the BUG now  "),
        "ownpager/Agent-One/fix-the-bug-now-0000abcd"
    );
    assert_eq!(derive_turn_branch_id("", "xyz", "???"), "ownpager/agent/turn-");
    assert_eq!(sanitize_branch_component("--a b--"), "a-b");
    assert_eq!(openai_root_function_tool_name("function::SendGrid.v2"), "tr_function_sendgrid_v2");
    assert_eq!(openai_root_function_tool_name("tr_x"), "tr_tr_x");
    assert_eq!(openai_root_function_tool_name("::"), "tr_tr");
    assert!(openai_root_function_tool_name(&"a".repeat(100)).len() <= 64);
}

#[test]
fn facts_are_long_statements() {
    assert_eq!(
        extract_sentences("Short. This sentence is long enough to keep. Is this long enough to keep?\nAnother statement that qualifies here"),
        vec![
            "This sentence is long enough to keep".to_string(),
            "Another statement that qualifies here".to_string(),
        ]
    );
}

#[test]
fn model_items_and_instructions() {
    let message = user_message("hello");
    assert_eq!(str_member(&message, "role"), Some("user"));
    let output = function_call_output("call_1", "{\"ok\":true}".to_string());
    assert_eq!(str_member(&output, "type"), Some("function_call_output"));
    assert_eq!(str_member(&output, "call_id"), Some("call_1"));
    assert_eq!(str_member(&output, "output"), Some("{\"ok\":true}"));
    let capsule = ThinkingRootCapsule {
        system_prompt: "  frame  ".to_string(),
        grounded_claims: vec![],
        routed_tools: vec![],
        token_estimate: 0,
        query_class: None,
        cache_hit: false,
        frame_warm: false,
        warnings: vec![],
    };
    assert_eq!(build_instructions(&capsule, false), "frame");
    assert!(build_instructions(&capsule, true).starts_with("frame\n\nTool discipline:"));
}

#[test]
fn usage_is_added_up() {
    let mut total = AgentTurnUsageEstimate {
        capsule_token_estimate: 1,
        api_call_count: 1,
        input_tokens: 1,
        output_tokens: 2,
        cached_input_tokens: 3,
        reasoning_output_tokens: 4,
        total_tokens: 5,
    };
    merge_openai_usage(
        &mut total,
        Some(&OpenAiTokenUsage {
            input_tokens: 10,
            output_tokens: 20,
            cached_input_tokens: 30,
            reasoning_output_tokens: 40,
            total_tokens: 50,
        }),
    );
    assert_eq!(total.input_tokens, 11);
    assert_eq!(total.total_tokens, 55);
    assert_eq!(total.api_call_count, 1);
    merge_openai_usage(&mut total, None);
    assert_eq!(total.output_tokens, 22);
}

#[test]
fn plans_offer_each_tool_once_and_warn_on_disabled_terminal() {
    let registry = ToolRegistry::default();
    let names = vec![
        "terminal".to_string(),
        "function::terminal".to_string(),
        "a.b".to_string(),
        "a_b".to_string(),
    ];
    let plan = registry.build_execution_plan(&names, true, &config(FlowMode::Auto, None));
    assert_eq!(plan.available_tool_names, vec!["terminal".to_string(), "a.b".to_string()]);
    assert_eq!(plan.tool_definitions.len(), 2);
    assert_eq!(plan.tool_definitions[1].name, "tr_a_b");
    assert_eq!(
        plan.warnings,
        vec!["ThinkingRoot routed `a_b` but its OpenAI tool name collided with another Root Function.".to_string()]
    );
    assert!(plan.used_local_fallback);
    assert_eq!(
        plan.allowed_routes,
        vec!["terminal".to_string(), "function::terminal".to_string(), "tr_a_b".to_string()]
    );
    assert_eq!(plan.root_function_routes.len(), 1);
    assert_eq!(plan.root_function_routes[0].tool_name, "tr_a_b");
    assert_eq!(plan.root_function_routes[0].function_name, "a.b");
    let summary = plan.summary();
    assert_eq!(summary.available_tool_names, plan.available_tool_names);

    let mut disabled = config(FlowMode::Auto, None);
    disabled.allow_local_terminal = false;
    let plan = registry.build_execution_plan(&vec!["terminal".to_string()], false, &disabled);
    assert!(plan.tool_definitions.is_empty());
    assert_eq!(
        plan.warnings,
        vec!["ThinkingRoot routed local tool `terminal` but local terminal execution is disabled.".to_string()]
    );
}

#[test]
fn root_function_tool_names_are_clean() {
    for name in ["Send--Grid__V2", "__x__", "A.B:C", "tr__y", "%%%", "Ünïcode"] {
        let tool = openai_root_function_tool_name(name);
        assert!(tool.starts_with("tr_"));
        assert!(tool.len() <= 64);
        assert!(tool.chars().all(|c| c.is_ascii_lowercase() || c.is_ascii_digit() || c == '_'));
        assert!(!tool.contains("__"));
    }
    assert_eq!(openai_root_function_tool_name("Send--Grid__V2"), "tr_send_grid_v2");
    assert_eq!(openai_root_function_tool_name("%%%"), "tr_tr");
}

#[test]
fn plans_define_one_tool_per_offered_name() {
    let registry = ToolRegistry::default();
    let names = vec!["x.y".to_string(), "terminal".to_string(), "z".to_string()];
    let plan = registry.build_execution_plan(&names, true, &config(FlowMode::Auto, None));
    assert_eq!(plan.available_tool_names, vec!["x.y".to_string(), "terminal".to_string(), "z".to_string()]);
    let defined: Vec<&str> = plan.tool_definitions.iter().map(|d| d.name.as_str()).collect();
    assert_eq!(defined, vec!["tr_x_y", "terminal", "tr_z"]);
}

#[test]
fn offered_tools_carry_their_schemas() {
    let registry = ToolRegistry::default();
    let names = vec!["terminal".to_string(), "fn.x".to_string()];
    let plan = registry.build_execution_plan(&names, false, &config(FlowMode::Auto, None));
    let terminal = &plan.tool_definitions[0].parameters;
    assert_eq!(terminal.get("type").and_then(|v| v.as_str()).map(|s| s.as_str()), Some("object"));
    assert!(matches!(terminal.get("additionalProperties"), Some(JsonValue::Bool(false))));
    let limit = terminal.get("properties").and_then(|p| p.get("max_output_bytes")).unwrap();
    assert_eq!(
        limit.get("description").and_then(|v| v.as_str()).map(|s| s.as_str()),
        Some("Optional max combined output size.")
    );
    let required = terminal.get("required").and_then(|v| v.as_array()).unwrap();
    assert_eq!(required.len(), 1);
    assert_eq!(required[0].as_str().map(|s| s.as_str()), Some("command"));
    let root = &plan.tool_definitions[1].parameters;
    let input = root.get("properties").and_then(|p| p.get("input")).unwrap();
    assert!(matches!(input.get("additionalProperties"), Some(JsonValue::Bool(true))));
    assert_eq!(
        input.get("description").and_then(|v| v.as_str()).map(|s| s.as_str()),
        Some("JSON payload for the Root Function.")
    );
}
