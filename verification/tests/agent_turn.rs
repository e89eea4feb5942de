use std::collections::VecDeque;

use ownpager::agent_runner::{openai_root_function_tool_name, ToolDispatch, ToolRegistry};
use ownpager::agent_turn::{AgentTurn, TurnAction, TurnInput, TurnStage};
use ownpager::config::{AgentRuntimeConfig, FlowMode};
use ownpager::json::{JsonMember, JsonNumber, JsonValue};
use ownpager::openai_responses::{OpenAiFunctionCall, OpenAiResponse, OpenAiTokenUsage};
use ownpager::types::{
    AgentIdentity, AgentTurnRequest, AgentTurnResult, PreparedTurnRequest, RetrievalMode,
    SourceMetadata, SourceType, ThinkingRootCaptureResult, ThinkingRootCapsule, ThinkingRootClaim,
    ThinkingRootFlowRun, ThinkingRootRoutedTool,
};

fn json_of(v: &serde_json::Value) -> JsonValue {
    match v {
        serde_json::Value::Null => JsonValue::Null,
        serde_json::Value::Bool(b) => JsonValue::Bool(*b),
        serde_json::Value::Number(n) => match (n.as_u64(), n.as_i64()) {
            (Some(u), _) => JsonValue::Number(JsonNumber::Unsigned(u)),
            (None, Some(i)) => JsonValue::Number(JsonNumber::Negative(i)),
            _ => JsonValue::Number(JsonNumber::Decimal(n.to_string())),
        },
        serde_json::Value::String(s) => JsonValue::String(s.clone()),
        serde_json::Value::Array(a) => JsonValue::Array(a.iter().map(json_of).collect()),
        serde_json::Value::Object(m) => JsonValue::Object(
            m.iter()
                .map(|(k, v)| JsonMember { key: k.clone(), value: json_of(v) })
                .collect(),
        ),
    }
}

fn json_text(text: &str) -> JsonValue {
    json_of(&serde_json::from_str::<serde_json::Value>(text).unwrap())
}

fn copy_json(v: &JsonValue) -> JsonValue {
    match v {
        JsonValue::Null => JsonValue::Null,
        JsonValue::Bool(b) => JsonValue::Bool(*b),
        JsonValue::Number(n) => JsonValue::Number(n.clone()),
        JsonValue::String(s) => JsonValue::String(s.clone()),
        JsonValue::Array(a) => JsonValue::Array(a.iter().map(copy_json).collect()),
        JsonValue::Object(m) => JsonValue::Object(
            m.iter()
                .map(|member| JsonMember { key: member.key.clone(), value: copy_json(&member.value) })
                .collect(),
        ),
    }
}

fn field<'a>(v: &'a JsonValue, key: &str) -> Option<&'a JsonValue> {
    match v {
        JsonValue::Object(members) => members.iter().find(|m| m.key == key).map(|m| &m.value),
        _ => None,
    }
}

fn field_str<'a>(v: &'a JsonValue, key: &str) -> Option<&'a str> {
    match field(v, key) {
        Some(JsonValue::String(s)) => Some(s.as_str()),
        _ => None,
    }
}

struct Stub {
    capsule: fn() -> ThinkingRootCapsule,
    route: Vec<ThinkingRootRoutedTool>,
    store_error: Option<String>,
    merge_error: Option<String>,
    flow_run: Option<fn() -> ThinkingRootFlowRun>,
    flow_output_text: String,
    responses: VecDeque<OpenAiResponse>,
    stored: usize,
    branch_events: Vec<String>,
    terminal_runs: usize,
}

fn stub(capsule: fn() -> ThinkingRootCapsule, responses: Vec<OpenAiResponse>) -> Stub {
    Stub {
        capsule,
        route: vec![],
        store_error: None,
        merge_error: None,
        flow_run: None,
        flow_output_text: String::new(),
        responses: responses.into(),
        stored: 0,
        branch_events: vec![],
        terminal_runs: 0,
    }
}

fn parsed_arguments(calls: &[OpenAiFunctionCall]) -> Vec<Result<JsonValue, String>> {
    calls
        .iter()
        .map(|call| {
            serde_json::from_str::<serde_json::Value>(&call.arguments)
                .map(|v| json_of(&v))
                .map_err(|error| error.to_string())
        })
        .collect()
}

fn drive(
    request: AgentTurnRequest,
    config: AgentRuntimeConfig,
    stub: &mut Stub,
) -> Result<AgentTurnResult, String> {
    let (mut turn, mut action) = AgentTurn::start(request, config)?;
    loop {
        action = match action {
            TurnAction::ForkBranch { branch_id, parent, .. } => {
                stub.branch_events.push(format!("fork:{branch_id}:{parent}"));
                turn.on_branch_forked(Ok(()))
            }
            TurnAction::CheckoutBranch { branch_id } => {
                stub.branch_events.push(format!("checkout:{branch_id}"));
                turn.on_branch_checked_out(Ok(()))
            }
            TurnAction::LoadCapsule => turn.on_capsule(Ok((stub.capsule)())),
            TurnAction::StartFlow { flow_id, .. } | TurnAction::PollFlow { flow_id, .. } => {
                let run = match stub.flow_run {
                    Some(make) => {
                        let mut run = make();
                        run.flow_id = flow_id;
                        Ok(run)
                    }
                    None => Err("no stub flow run configured".to_string()),
                };
                turn.on_flow_snapshot(run, false, stub.flow_output_text.clone())
            }
            TurnAction::Route { .. } => turn.on_route(Ok(stub.route.clone())),
            TurnAction::CallModel => match stub.responses.pop_front() {
                Some(response) => {
                    let parsed = parsed_arguments(&response.function_calls);
                    turn.on_model_response(Ok(response), parsed)
                }
                None => turn.on_model_response(Err("no stub response left".to_string()), vec![]),
            },
            TurnAction::InvokeRootFunction { function_name, input_is_member } => {
                let arguments = turn.current_arguments.as_ref().unwrap();
                let input = if input_is_member {
                    copy_json(field(arguments, "input").unwrap())
                } else {
                    copy_json(arguments)
                };
                let result = JsonValue::Object(vec![
                    JsonMember { key: "function_name".to_string(), value: JsonValue::String(function_name) },
                    JsonMember { key: "input".to_string(), value: input },
                    JsonMember { key: "result".to_string(), value: json_text(r#"{"ok": true}"#) },
                ]);
                turn.on_tool_result(Ok(result))
            }
            TurnAction::RunTerminal(request) => {
                stub.terminal_runs += 1;
                let result = json_text(&format!(
                    r#"{{"command": "{}", "cwd": "/Users/alenjosephjohn/Multi/ownpager", "status": "success", "stdout": "/Users/alenjosephjohn/Multi/ownpager\n", "stderr": ""}}"#,
                    request.command
                ));
                turn.on_tool_result(Ok(result))
            }
            TurnAction::Store => {
                stub.stored += 1;
                turn.on_stored(match &stub.store_error {
                    Some(error) => Err(error.clone()),
                    None => Ok(ThinkingRootCaptureResult { accepted: 1 }),
                })
            }
            TurnAction::MergeBranch { branch_id, .. } => {
                stub.branch_events.push(format!("merge:{branch_id}"));
                turn.on_merged(match &stub.merge_error {
                    Some(error) => Err(error.clone()),
                    None => Ok(()),
                })
            }
            TurnAction::Finish => return Ok(turn.into_result()),
            TurnAction::Fail(error) => return Err(error),
        };
    }
}

fn prepared_turn_request() -> PreparedTurnRequest {
    PreparedTurnRequest {
        request_id: 0x67e5_5044_10b1_426f_9247_bb68_0e5f_e0c8,
        query_text: "Check whether the server is listening.".to_string(),
        session_key: "cli:default:repo".to_string(),
        workspace_hint: Some("ownpager".to_string()),
        source: SourceMetadata {
            source_type: SourceType::Cli,
            user_id: Some("default".to_string()),
            chat_id: None,
            message_id: None,
            cwd: Some("/Users/alenjosephjohn/Multi/ownpager".to_string()),
        },
        retrieval_mode: RetrievalMode::PreTurn,
        branch_id: None,
        user_profile_id: None,
    }
}

fn agent_identity() -> AgentIdentity {
    AgentIdentity {
        agent_id: "ownpager".to_string(),
        scoped_user_id: "ownpager".to_string(),
        workspace: "ownpager".to_string(),
        prompt_name: Some("main".to_string()),
        session_id: "cli:default:repo".to_string(),
    }
}

fn turn_request(prepared: PreparedTurnRequest) -> AgentTurnRequest {
    AgentTurnRequest {
        prepared_turn_request: prepared,
        agent_identity: Some(agent_identity()),
        agent_id: None,
        prompt_name: None,
        session_id: None,
    }
}

fn capsule_with_tools(routed_tools: Vec<&str>, claims: Vec<&str>) -> ThinkingRootCapsule {
    ThinkingRootCapsule {
        system_prompt: "Use ThinkingRoot capsule context.".to_string(),
        grounded_claims: claims
            .into_iter()
            .enumerate()
            .map(|(index, statement)| ThinkingRootClaim {
                claim_id: format!("claim-{index}"),
                statement: statement.to_string(),
                claim_type: "memory".to_string(),
                source_uri: "memory://test".to_string(),
            })
            .collect(),
        routed_tools: routed_tools.into_iter().map(str::to_string).collect(),
        token_estimate: 74,
        query_class: Some("ops".to_string()),
        cache_hit: true,
        frame_warm: true,
        warnings: vec![],
    }
}

fn agent_config() -> AgentRuntimeConfig {
    AgentRuntimeConfig {
        max_tool_iterations: 2,
        terminal_timeout_seconds: 5,
        terminal_max_output_bytes: 4096,
        allow_local_terminal: true,
        routed_tool_top_k: 8,
        branch_per_run: true,
        branch_parent: "main".to_string(),
        branch_merge_policy: Some("verify-before-merge".to_string()),
        flow_id: None,
        flow_mode: FlowMode::Auto,
        flow_poll_interval_ms: 1,
        flow_timeout_seconds: 5,
    }
}

fn message_response(text: &str) -> OpenAiResponse {
    OpenAiResponse {
        output_text: text.to_string(),
        output_items: vec![json_text(&format!(
            r#"{{"type": "message", "content": [{{"type": "output_text", "text": "{text}"}}]}}"#
        ))],
        function_calls: vec![],
        usage: None,
    }
}

fn call_response(call_id: &str, name: &str, arguments: &str, usage: Option<OpenAiTokenUsage>) -> OpenAiResponse {
    OpenAiResponse {
        output_text: String::new(),
        output_items: vec![JsonValue::Object(vec![
            JsonMember { key: "type".to_string(), value: JsonValue::String("function_call".to_string()) },
            JsonMember { key: "call_id".to_string(), value: JsonValue::String(call_id.to_string()) },
            JsonMember { key: "name".to_string(), value: JsonValue::String(name.to_string()) },
            JsonMember { key: "arguments".to_string(), value: JsonValue::String(arguments.to_string()) },
        ])],
        function_calls: vec![OpenAiFunctionCall {
            call_id: call_id.to_string(),
            name: name.to_string(),
            arguments: arguments.to_string(),
        }],
        usage,
    }
}

fn grounded_capsule() -> ThinkingRootCapsule {
    capsule_with_tools(vec![], vec!["The service usually listens on localhost:8080."])
}

fn terminal_capsule() -> ThinkingRootCapsule {
    capsule_with_tools(vec!["function::terminal"], vec![])
}

#[test]
fn returns_direct_answer_without_tools() {
    let mut stub = stub(
        grounded_capsule,
        vec![message_response("The service is expected on localhost:8080.")],
    );
    let result = drive(turn_request(prepared_turn_request()), agent_config(), &mut stub).unwrap();

    assert_eq!(result.final_answer, "The service is expected on localhost:8080.");
    assert!(result.execution_plan.available_tool_names.is_empty());
    assert_eq!(stub.stored, 1);
    assert!(result.thinkingroot_hot_path.branch_run.unwrap().merged);
    assert_eq!(result.usage_estimate.api_call_count, 1);
    assert_eq!(result.usage_estimate.capsule_token_estimate, 74);
}

#[test]
fn uses_routed_terminal_then_answers() {
    let mut stub = stub(
        terminal_capsule,
        vec![
            call_response(
                "call_1",
                "terminal",
                "{\"command\":\"pwd\"}",
                Some(OpenAiTokenUsage {
                    input_tokens: 80,
                    output_tokens: 12,
                    cached_input_tokens: 20,
                    reasoning_output_tokens: 0,
                    total_tokens: 112,
                }),
            ),
            OpenAiResponse {
                usage: Some(OpenAiTokenUsage {
                    input_tokens: 120,
                    output_tokens: 18,
                    cached_input_tokens: 30,
                    reasoning_output_tokens: 4,
                    total_tokens: 168,
                }),
                ..message_response("I checked the workspace and confirmed the current directory.")
            },
        ],
    );
    let result = drive(turn_request(prepared_turn_request()), agent_config(), &mut stub).unwrap();

    assert_eq!(result.execution_plan.available_tool_names, vec!["terminal"]);
    assert_eq!(result.tool_calls.len(), 1);
    assert!(result.tool_calls[0].routed);
    assert_eq!(result.usage_estimate.api_call_count, 2);
    assert_eq!(result.usage_estimate.input_tokens, 200);
    assert_eq!(result.usage_estimate.output_tokens, 30);
    assert_eq!(result.usage_estimate.cached_input_tokens, 50);
    assert_eq!(result.usage_estimate.reasoning_output_tokens, 4);
    assert_eq!(result.usage_estimate.total_tokens, 280);
}

fn repeated_tool_response() -> OpenAiResponse {
    call_response(
        "call_1",
        "terminal",
        "{\"command\":\"pwd\"}",
        Some(OpenAiTokenUsage {
            input_tokens: 10,
            output_tokens: 2,
            cached_input_tokens: 0,
            reasoning_output_tokens: 0,
            total_tokens: 12,
        }),
    )
}

#[test]
fn returns_partial_answer_when_tool_iteration_limit_is_reached() {
    let mut stub = stub(
        terminal_capsule,
        vec![repeated_tool_response(), repeated_tool_response(), repeated_tool_response()],
    );
    let result = drive(turn_request(prepared_turn_request()), agent_config(), &mut stub).unwrap();

    assert!(result
        .final_answer
        .contains("Stopped after reaching the max tool iteration limit"));
    assert_eq!(result.tool_calls.len(), 2);
    assert_eq!(result.usage_estimate.api_call_count, 3);
    assert_eq!(result.usage_estimate.total_tokens, 36);
    assert!(result
        .warnings
        .iter()
        .any(|warning| warning.contains("max tool iteration limit")));
}

fn empty_capsule() -> ThinkingRootCapsule {
    ThinkingRootCapsule {
        system_prompt: String::new(),
        grounded_claims: vec![],
        routed_tools: vec![],
        token_estimate: 0,
        query_class: None,
        cache_hit: false,
        frame_warm: false,
        warnings: vec![],
    }
}

#[test]
fn cold_start_falls_back_to_local_bootstrap_tool() {
    let mut stub = stub(
        empty_capsule,
        vec![message_response("I need to inspect the workspace first.")],
    );
    let result = drive(turn_request(prepared_turn_request()), agent_config(), &mut stub).unwrap();

    assert!(result.thinkingroot_hot_path.cold_start_degraded);
    assert!(result.execution_plan.used_local_fallback);
    assert_eq!(result.execution_plan.available_tool_names, vec!["terminal"]);
    assert_eq!(result.usage_estimate.api_call_count, 1);
}

fn plain_capsule() -> ThinkingRootCapsule {
    capsule_with_tools(vec![], vec![])
}

#[test]
fn terminal_inspection_request_falls_back_to_local_tool_with_capsule_prompt() {
    let mut stub = stub(
        plain_capsule,
        vec![message_response("I can inspect the workspace with the terminal.")],
    );
    let mut request = prepared_turn_request();
    request.query_text =
        "Use the available terminal tooling to inspect the workspace directory.".to_string();
    let result = drive(turn_request(request), agent_config(), &mut stub).unwrap();

    assert!(!result.thinkingroot_hot_path.cold_start_degraded);
    assert!(result.execution_plan.used_local_fallback);
    assert_eq!(result.execution_plan.available_tool_names, vec!["terminal"]);
    assert_eq!(result.usage_estimate.api_call_count, 1);
}

fn flow_capsule() -> ThinkingRootCapsule {
    capsule_with_tools(vec![], vec!["Competitor research belongs in a flow."])
}

fn completed_flow() -> ThinkingRootFlowRun {
    ThinkingRootFlowRun {
        flow_id: "demo-flow".to_string(),
        flow_run_id: "flow-run-1".to_string(),
        status: "completed".to_string(),
        output: Some(json_text(r#"{"final_answer": "Research complete. Report drafted."}"#)),
        raw: json_text(r#"{"status": "completed"}"#),
    }
}

#[test]
fn complex_task_runs_thinkingroot_flow() {
    let mut stub = stub(flow_capsule, vec![]);
    stub.flow_run = Some(completed_flow);
    stub.flow_output_text = r#"{"final_answer":"Research complete. Report drafted."}"#.to_string();
    let mut config = agent_config();
    config.flow_id = Some("demo-flow".to_string());
    config.flow_mode = FlowMode::Auto;
    let mut request = prepared_turn_request();
    request.query_text = "Research competitors, then write a report, then email it.".to_string();
    let result = drive(turn_request(request), config, &mut stub).unwrap();

    assert_eq!(result.final_answer, "Research complete. Report drafted.");
    assert_eq!(
        result.flow_run.as_ref().map(|flow| flow.flow_run_id.as_str()),
        Some("flow-run-1")
    );
    assert!(result.execution_plan.available_tool_names.is_empty());
    assert_eq!(stub.stored, 1);
    assert_eq!(result.usage_estimate.api_call_count, 0);
    assert_eq!(result.usage_estimate.capsule_token_estimate, 74);
}

#[test]
fn unrouted_tool_is_blocked() {
    let registry = ToolRegistry::default();
    let plan = registry.build_execution_plan(&vec![], false, &agent_config());
    assert!(matches!(registry.dispatch(&plan, "terminal"), ToolDispatch::NotRouted));

    let mut config = agent_config();
    config.terminal_max_output_bytes = 4096;
    let mut stub = stub(
        grounded_capsule,
        vec![
            call_response("call_1", "terminal", "{\"command\":\"pwd\"}", None),
            message_response("done"),
        ],
    );
    let result = drive(turn_request(prepared_turn_request()), config, &mut stub).unwrap();
    let outcome = &result.tool_calls[0];
    assert_eq!(
        field_str(&outcome.result, "error"),
        Some("tool `terminal` was not routed for this turn")
    );
    assert!(!outcome.routed);
    assert_eq!(stub.terminal_runs, 0);
}

fn sendgrid_capsule() -> ThinkingRootCapsule {
    capsule_with_tools(vec!["function::sendgrid"], vec![])
}

#[test]
fn routed_unknown_tool_invokes_root_function() {
    let registry = ToolRegistry::default();
    let plan = registry.build_execution_plan(
        &vec!["function::sendgrid".to_string()],
        false,
        &agent_config(),
    );
    let tool_name = openai_root_function_tool_name("function::sendgrid");
    match registry.dispatch(&plan, &tool_name) {
        ToolDispatch::RootFunction(name) => assert_eq!(name, "function::sendgrid"),
        other => panic!("unexpected dispatch {other:?}"),
    }

    let mut stub = stub(
        sendgrid_capsule,
        vec![
            call_response("call_9", &tool_name, "{\"input\":{\"to\":\"judge@example.com\"}}", None),
            message_response("sent"),
        ],
    );
    let result = drive(turn_request(prepared_turn_request()), agent_config(), &mut stub).unwrap();
    let outcome = &result.tool_calls[0];
    assert_eq!(field_str(&outcome.result, "function_name"), Some("function::sendgrid"));
    assert_eq!(outcome.tool_name, "function::sendgrid");
    assert!(outcome.routed);
    assert_eq!(
        field(&outcome.result, "input").and_then(|input| field_str(input, "to")),
        Some("judge@example.com")
    );
}

#[test]
fn store_failure_does_not_fail_turn() {
    let mut stub = stub(
        grounded_capsule,
        vec![message_response("The service is expected on localhost:8080.")],
    );
    stub.store_error = Some("write failed".to_string());
    let result = drive(turn_request(prepared_turn_request()), agent_config(), &mut stub).unwrap();

    assert!(result.capture_result.is_none());
    assert!(result
        .warnings
        .iter()
        .any(|warning| warning.contains("ThinkingRoot scoped store failed")));
}

#[test]
fn merge_failure_is_kept_on_the_branch_run() {
    let mut stub = stub(grounded_capsule, vec![message_response("ok")]);
    stub.merge_error = Some("conflict".to_string());
    let result = drive(turn_request(prepared_turn_request()), agent_config(), &mut stub).unwrap();
    let branch = result.thinkingroot_hot_path.branch_run.unwrap();
    assert!(!branch.merged);
    assert_eq!(branch.merge_error.as_deref(), Some("conflict"));
    assert!(result.warnings.contains(&"ThinkingRoot branch merge failed: conflict".to_string()));
    assert_eq!(branch.branch_id, "ownpager/ownpager/check-whether-the-server-is-list-67e55044");
    assert_eq!(
        stub.branch_events,
        vec![
            "fork:ownpager/ownpager/check-whether-the-server-is-list-67e55044:main".to_string(),
            "checkout:ownpager/ownpager/check-whether-the-server-is-list-67e55044".to_string(),
            "merge:ownpager/ownpager/check-whether-the-server-is-list-67e55044".to_string(),
        ]
    );
}

#[test]
fn turn_without_branch_neither_forks_nor_merges() {
    let mut config = agent_config();
    config.branch_per_run = false;
    let mut stub = stub(grounded_capsule, vec![message_response("ok")]);
    let result = drive(turn_request(prepared_turn_request()), config, &mut stub).unwrap();
    assert!(result.thinkingroot_hot_path.branch_run.is_none());
    assert!(stub.branch_events.is_empty());
    assert_eq!(stub.stored, 1);
    assert_eq!(result.captured_knowledge.decisions.len(), 0);
}

#[test]
fn turn_needs_an_agent_identity() {
    let mut request = turn_request(prepared_turn_request());
    request.agent_identity = None;
    let error = AgentTurn::start(request, agent_config()).err().unwrap();
    assert_eq!(error, "agent identity is required for the V3 hot path");
}

#[test]
fn failures_of_thinkingroot_calls_fail_the_turn_with_their_stage() {
    let (mut turn, _) = AgentTurn::start(turn_request(prepared_turn_request()), agent_config()).unwrap();
    match turn.on_branch_forked(Err("busy".to_string())) {
        TurnAction::Fail(error) => assert_eq!(error, "ThinkingRoot branch fork failed: busy"),
        other => panic!("unexpected action {other:?}"),
    }
    assert_eq!(turn.stage, TurnStage::Failed);

    let mut config = agent_config();
    config.branch_per_run = false;
    let (mut turn, action) = AgentTurn::start(turn_request(prepared_turn_request()), config).unwrap();
    assert!(matches!(action, TurnAction::LoadCapsule));
    match turn.on_capsule(Err("down".to_string())) {
        TurnAction::Fail(error) => assert_eq!(error, "ThinkingRoot capsule failed: down"),
        other => panic!("unexpected action {other:?}"),
    }
}

#[test]
fn model_input_keeps_the_query_reply_items_and_tool_outputs() {
    let mut config = agent_config();
    config.branch_per_run = false;
    let (mut turn, _) = AgentTurn::start(turn_request(prepared_turn_request()), config).unwrap();
    let action = turn.on_capsule(Ok(terminal_capsule()));
    assert!(matches!(action, TurnAction::CallModel));
    assert_eq!(turn.input.len(), 1);
    let response = call_response("call_1", "terminal", "{\"command\":\"pwd\"}", None);
    let parsed = parsed_arguments(&response.function_calls);
    match turn.on_model_response(Ok(response), parsed) {
        TurnAction::RunTerminal(request) => {
            assert_eq!(request.command, "pwd");
            assert_eq!(request.workdir.as_deref(), Some("/Users/alenjosephjohn/Multi/ownpager"));
            assert_eq!(request.timeout_seconds, Some(5));
            assert_eq!(request.max_output_bytes, Some(4096));
            assert!(request.allowed_root.is_none());
        }
        other => panic!("unexpected action {other:?}"),
    }
    let action = turn.on_tool_result(Ok(json_text(r#"{"status": "success"}"#)));
    assert!(matches!(action, TurnAction::CallModel));
    assert_eq!(turn.input.len(), 3);
    assert!(matches!(&turn.input[1], TurnInput::Item(_)));
    match &turn.input[2] {
        TurnInput::ToolOutput { call_id, record } => {
            assert_eq!(call_id, "call_1");
            assert_eq!(*record, 0);
        }
        other => panic!("unexpected input {other:?}"),
    }
    assert!(turn.instructions.starts_with("Use ThinkingRoot capsule context."));
    assert!(turn.instructions.contains("Tool discipline"));
}

#[test]
fn unparsable_arguments_fail_the_turn() {
    let mut stub = stub(terminal_capsule, vec![call_response("c", "terminal", "{oops", None)]);
    let error = drive(turn_request(prepared_turn_request()), agent_config(), &mut stub).unwrap_err();
    assert!(error.contains("key must be a string"));
}

fn flow_turn() -> AgentTurn {
    let mut config = agent_config();
    config.branch_per_run = false;
    config.flow_id = Some("demo-flow".to_string());
    config.flow_mode = FlowMode::Always;
    let (mut turn, _) = AgentTurn::start(turn_request(prepared_turn_request()), config).unwrap();
    match turn.on_capsule(Ok(flow_capsule())) {
        TurnAction::StartFlow { flow_id, inputs } => {
            assert_eq!(flow_id, "demo-flow");
            let prepared = prepared_turn_request();
            let query = inputs.get("query").and_then(|v| v.as_str()).cloned();
            assert_eq!(query, Some(prepared.query_text.clone()));
            let id = inputs.get("request_id").and_then(|v| v.as_str()).cloned().unwrap();
            assert_eq!(id.len(), 36);
            assert_eq!(id.matches('-').count(), 4);
            let source = inputs.get("source").unwrap();
            assert!(source.get("source_type").and_then(|v| v.as_str()).is_some());
            let capsule = inputs.get("capsule").unwrap();
            let claims = capsule.get("grounded_claims").and_then(|v| v.as_array()).unwrap();
            assert_eq!(claims.len(), flow_capsule().grounded_claims.len());
            assert!(inputs.get("agent_identity").and_then(|v| v.get("agent_id")).is_some());
        }
        other => panic!("unexpected action {other:?}"),
    }
    turn
}

fn snapshot(status: &str, run_id: &str) -> ThinkingRootFlowRun {
    ThinkingRootFlowRun {
        flow_id: "demo-flow".to_string(),
        flow_run_id: run_id.to_string(),
        status: status.to_string(),
        output: None,
        raw: JsonValue::Null,
    }
}

fn fail_text(action: TurnAction) -> String {
    match action {
        TurnAction::Fail(error) => error,
        other => panic!("unexpected action {other:?}"),
    }
}

#[test]
fn running_flows_are_polled_until_they_end() {
    let mut turn = flow_turn();
    match turn.on_flow_snapshot(Ok(snapshot("RUNNING", "r1")), false, String::new()) {
        TurnAction::PollFlow { flow_id, flow_run_id, wait_ms } => {
            assert_eq!(flow_id, "demo-flow");
            assert_eq!(flow_run_id, "r1");
            assert_eq!(wait_ms, 1);
        }
        other => panic!("unexpected action {other:?}"),
    }
    let action = turn.on_flow_snapshot(Ok(snapshot("Done", "r1")), false, String::new());
    assert!(matches!(action, TurnAction::Store));
    assert_eq!(turn.final_answer, "ThinkingRoot flow `demo-flow` completed with status `Done`.");
    let action = turn.on_stored(Ok(ThinkingRootCaptureResult { accepted: 2 }));
    assert!(matches!(action, TurnAction::Finish));
    let result = turn.into_result();
    assert_eq!(result.capture_result.map(|c| c.accepted), Some(2));
    assert_eq!(
        result.captured_knowledge.summary.as_deref(),
        Some("ThinkingRoot flow `demo-flow` completed with status `Done`.")
    );
    assert_eq!(result.flow_run.map(|f| f.status), Some("Done".to_string()));
}

#[test]
fn flow_failures_fail_the_turn() {
    let mut turn = flow_turn();
    assert_eq!(
        fail_text(turn.on_flow_snapshot(Err("bridge down".to_string()), false, String::new())),
        "ThinkingRoot flow start failed: bridge down"
    );

    let mut turn = flow_turn();
    let _ = turn.on_flow_snapshot(Ok(snapshot("queued", "r2")), false, String::new());
    assert_eq!(
        fail_text(turn.on_flow_snapshot(Err("lost".to_string()), false, String::new())),
        "ThinkingRoot flow poll failed: lost"
    );

    let mut turn = flow_turn();
    assert_eq!(
        fail_text(turn.on_flow_snapshot(Ok(snapshot("Cancelled", "r3")), false, String::new())),
        "ThinkingRoot flow `demo-flow` failed with status `Cancelled`"
    );

    let mut turn = flow_turn();
    assert_eq!(
        fail_text(turn.on_flow_snapshot(Ok(snapshot("running", "  ")), false, String::new())),
        "ThinkingRoot flow `demo-flow` did not return a flow_run_id"
    );

    let mut turn = flow_turn();
    assert_eq!(
        fail_text(turn.on_flow_snapshot(Ok(snapshot("running", "r4")), true, String::new())),
        "ThinkingRoot flow `demo-flow` timed out after 5 seconds"
    );
}

#[test]
fn blank_capsule_prompt_and_route_failure_become_warnings() {
    let mut config = agent_config();
    config.branch_per_run = false;
    let (mut turn, _) = AgentTurn::start(turn_request(prepared_turn_request()), config).unwrap();
    let mut capsule = empty_capsule();
    capsule.warnings = vec!["cache cold".to_string()];
    assert!(matches!(turn.on_capsule(Ok(capsule)), TurnAction::Route { .. }));
    assert!(matches!(turn.on_route(Err("timeout".to_string())), TurnAction::CallModel));
    assert_eq!(
        turn.warnings,
        vec![
            "cache cold".to_string(),
            "ThinkingRoot prompt `main` compiled to an empty system frame".to_string(),
            "ThinkingRoot route failed: timeout".to_string(),
        ]
    );
    assert_eq!(turn.hot_path_warnings, turn.warnings);
    assert_eq!(turn.allowed_tool_names, vec!["terminal".to_string()]);
}

#[test]
fn routed_tools_replace_the_bootstrap_terminal() {
    let mut config = agent_config();
    config.branch_per_run = false;
    let (mut turn, _) = AgentTurn::start(turn_request(prepared_turn_request()), config).unwrap();
    assert!(matches!(turn.on_capsule(Ok(empty_capsule())), TurnAction::Route { .. }));
    let ranked = vec![ThinkingRootRoutedTool { name: "function::search".to_string(), score: None }];
    assert!(matches!(turn.on_route(Ok(ranked)), TurnAction::CallModel));
    assert!(turn.used_route_fallback);
    assert_eq!(turn.allowed_tool_names, vec!["function::search".to_string()]);
    let plan = turn.plan.as_ref().unwrap();
    assert_eq!(plan.available_tool_names, vec!["function::search".to_string()]);
    assert_eq!(plan.tool_definitions[0].name, "tr_function_search");
}

#[test]
fn unrouted_calls_are_recorded_and_the_turn_goes_on() {
    let mut first = call_response("c1", "nowhere", "{}", None);
    let second = call_response("c2", "terminal", "{\"command\":\"pwd\"}", None);
    first.output_items.extend(second.output_items);
    first.function_calls.extend(second.function_calls);
    let mut stub = stub(terminal_capsule, vec![first, message_response("done")]);
    let result = drive(turn_request(prepared_turn_request()), agent_config(), &mut stub).unwrap();
    assert_eq!(result.final_answer, "done");
    assert_eq!(result.tool_calls.len(), 2);
    assert!(!result.tool_calls[0].routed);
    assert_eq!(result.tool_calls[0].tool_name, "nowhere");
    assert_eq!(
        field_str(&result.tool_calls[0].result, "error"),
        Some("tool `nowhere` was not routed for this turn")
    );
    assert!(result.tool_calls[1].routed);
    assert_eq!(stub.terminal_runs, 1);
    assert_eq!(result.usage_estimate.api_call_count, 2);
}

#[test]
fn terminal_call_without_a_command_fails_the_turn() {
    let mut stub = stub(terminal_capsule, vec![call_response("c", "terminal", "{}", None)]);
    let error = drive(turn_request(prepared_turn_request()), agent_config(), &mut stub).unwrap_err();
    assert_eq!(error, "terminal tool call missing command");
    assert_eq!(stub.terminal_runs, 0);
}

#[test]
fn a_finished_turn_stored_once_and_merged_once() {
    let mut stub = stub(grounded_capsule, vec![message_response("ok")]);
    let result = drive(turn_request(prepared_turn_request()), agent_config(), &mut stub).unwrap();
    assert_eq!(stub.stored, 1);
    let merges = stub.branch_events.iter().filter(|e| e.starts_with("merge:")).count();
    assert_eq!(merges, 1);
    let branch = result.thinkingroot_hot_path.branch_run.unwrap();
    assert!(branch.forked && branch.checked_out && branch.merged);
    assert!(branch.merge_error.is_none());
}
