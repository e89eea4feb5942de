use ownpager::config::ThinkingRootRuntimeConfig;
use ownpager::thinkingroot_boundary::{preview_before_thinkingroot, PREPARE_TURN_BOUNDARY_MESSAGE};
use ownpager::thinkingroot_http::{classify_knowledge_status, classify_preparation};
use ownpager::thinkingroot_sdk::{
    bridge_failure, bridge_failure_message, normalize_agent_id, ThinkingRootSdkClient,
};
use ownpager::types::{
    PreparedTurnRequest, PreparedTurnResponse, RetrievalMode, SourceMetadata, SourceType,
    ThinkingRootKnowledgeStatus,
};

fn response(memory: &str, provenance_count: usize) -> PreparedTurnResponse {
    PreparedTurnResponse {
        grounded_memory_block: memory.to_string(),
        referenced_entities: vec![],
        provenance_ids: (0..provenance_count)
            .map(|index| format!("prov-{index}"))
            .collect(),
        warnings: vec![],
        knowledge_status: ThinkingRootKnowledgeStatus::Unavailable,
    }
}

#[test]
fn classifies_empty_preparation() {
    assert_eq!(
        classify_knowledge_status(&response("", 0)),
        ThinkingRootKnowledgeStatus::Empty
    );
}

#[test]
fn classifies_weak_preparation() {
    assert_eq!(
        classify_knowledge_status(&response("short memory", 1)),
        ThinkingRootKnowledgeStatus::Weak
    );
}

#[test]
fn classifies_sufficient_preparation() {
    let memory =
        "This is a sufficiently detailed memory block that includes grounded context and recall.";
    assert_eq!(
        classify_knowledge_status(&response(memory, 2)),
        ThinkingRootKnowledgeStatus::Sufficient
    );
}

#[test]
fn long_memory_without_provenance_is_weak_and_classification_is_stored() {
    let memory =
        "This is a sufficiently detailed memory block that includes grounded context and recall.";
    assert_eq!(
        classify_knowledge_status(&response(memory, 0)),
        ThinkingRootKnowledgeStatus::Weak
    );
    let classified = classify_preparation(response("   ", 1));
    assert_eq!(classified.knowledge_status, ThinkingRootKnowledgeStatus::Weak);
    assert_eq!(classified.provenance_ids, vec!["prov-0".to_string()]);
}

fn request() -> PreparedTurnRequest {
    PreparedTurnRequest {
        request_id: 0,
        query_text: "hello".to_string(),
        session_key: "telegram:chat:user".to_string(),
        workspace_hint: Some("ownpager".to_string()),
        source: SourceMetadata {
            source_type: SourceType::Telegram,
            user_id: Some("777".to_string()),
            chat_id: Some("123".to_string()),
            message_id: Some("10".to_string()),
            cwd: None,
        },
        retrieval_mode: RetrievalMode::PreTurn,
        branch_id: None,
        user_profile_id: None,
    }
}

fn client() -> ThinkingRootSdkClient {
    ThinkingRootSdkClient::new(ThinkingRootRuntimeConfig {
        gateway_url: "http://127.0.0.1:3001".to_string(),
        project_key: Some("tr_sk_test".to_string()),
        workspace: "ownpager".to_string(),
        default_agent_id: "ownpager".to_string(),
        prompt_name: "main".to_string(),
        top_k: 6,
        max_tools: 4,
        node_binary: "node".to_string(),
        sdk_bridge_script: "/tmp/bridge.mjs".to_string(),
    })
}

#[test]
fn normalizes_agent_identity() {
    let identity = client().derive_agent_identity(&request(), Some("worker/main"), None, None);
    assert_eq!(identity.agent_id, "worker_main");
    assert_eq!(identity.scoped_user_id, "worker_main");
}

#[test]
fn falls_back_to_default_agent_identity() {
    let identity = client().derive_agent_identity(&request(), None, None, None);
    assert_eq!(identity.agent_id, "ownpager");
    assert_eq!(identity.prompt_name.as_deref(), Some("main"));
    assert_eq!(identity.session_id, "telegram:chat:user");
}

#[test]
fn agent_ids_are_cleaned_or_replaced() {
    assert_eq!(normalize_agent_id("__a b__", "d"), "a_b");
    assert_eq!(normalize_agent_id("///", "fallback"), "fallback");
    assert_eq!(normalize_agent_id("ok-id_1", "x"), "ok-id_1");
}

#[test]
fn explicit_identity_parts_are_kept() {
    let mut req = request();
    req.workspace_hint = None;
    let identity = client().derive_agent_identity(&req, Some("a"), Some("p"), Some("s"));
    assert_eq!(identity.workspace, "ownpager");
    assert_eq!(identity.prompt_name.as_deref(), Some("p"));
    assert_eq!(identity.session_id, "s");
    let envelope = client().bridge_envelope(&identity);
    assert_eq!(envelope.gateway_url, "http://127.0.0.1:3001");
    assert_eq!(envelope.project_key.as_deref(), Some("tr_sk_test"));
    assert_eq!(envelope.scoped_user_id, "a");
    assert_eq!(envelope.top_k, 6);
    assert_eq!(envelope.max_tools, 4);
    assert_eq!(envelope.session_id, "s");
}

#[test]
fn bridge_failures_prefer_error_output() {
    assert_eq!(
        bridge_failure(&b"  boom \n".to_vec(), &b"out".to_vec()),
        "ThinkingRoot SDK bridge failed: boom"
    );
    assert_eq!(
        bridge_failure(&b"   ".to_vec(), &b" out ".to_vec()),
        "ThinkingRoot SDK bridge failed: out"
    );
}

#[test]
fn preview_stops_at_the_boundary() {
    let preview = preview_before_thinkingroot(request());
    assert_eq!(preview.thinkingroot_boundary, PREPARE_TURN_BOUNDARY_MESSAGE);
    assert_eq!(preview.prepared_turn_request.query_text, "hello");
}

#[test]
fn bridge_failure_text_is_trimmed() {
    assert_eq!(
        bridge_failure_message("\n err \t", "out"),
        "ThinkingRoot SDK bridge failed: err"
    );
    assert_eq!(bridge_failure_message("", ""), "ThinkingRoot SDK bridge failed: ");
    assert_eq!(
        bridge_failure(&vec![0xFF, b'x'], &vec![]),
        "ThinkingRoot SDK bridge failed: \u{FFFD}x"
    );
}
