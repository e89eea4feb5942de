use ownpager::cli_intake::prepare_cli_message;
use ownpager::intake::{
    build_incoming_query, normalize_text, prepare_turn_request, IncomingQueryParts, IntakeError,
};
use ownpager::thinkingroot_boundary::PREPARE_TURN_BOUNDARY_MESSAGE;
use ownpager::types::{RetrievalMode, SourceType};
use ownpager::web_intake::{prepare_from_web_request, WebTurnRequest};

#[test]
fn normalizes_whitespace() {
    let normalized = normalize_text("  hello\n\n  world  ").unwrap();
    assert_eq!(normalized, "hello world");
}

#[test]
fn rejects_empty_messages() {
    assert_eq!(normalize_text(" \n\t "), Err(IntakeError::EmptyMessage));
}

#[test]
fn converts_incoming_query_to_prepared_turn_request() {
    let incoming = build_incoming_query(IncomingQueryParts {
        source_type: SourceType::Cli,
        raw_text: "  Explain this repo  ".to_string(),
        session_key: "cli:default:repo".to_string(),
        user_id: None,
        chat_id: None,
        message_id: None,
        cwd: Some("/repo".to_string()),
        workspace_hint: Some("repo".to_string()),
    })
    .unwrap();

    let prepared = prepare_turn_request(incoming);
    assert_eq!(prepared.query_text, "Explain this repo");
    assert_eq!(prepared.retrieval_mode, RetrievalMode::PreTurn);
    assert_eq!(prepared.source.source_type, SourceType::Cli);
}

#[test]
fn prepares_cli_message() {
    let preview = prepare_cli_message(
        "  Build the bridge  ".to_string(),
        "default".to_string(),
        Some("ownpager".to_string()),
        Some("/tmp".to_string()),
    )
    .unwrap();

    assert_eq!(preview.prepared_turn_request.query_text, "Build the bridge");
    assert_eq!(
        preview.prepared_turn_request.source.source_type,
        SourceType::Cli
    );
    assert_eq!(preview.thinkingroot_boundary, PREPARE_TURN_BOUNDARY_MESSAGE);
}

#[test]
fn prepares_web_request_as_web_source() {
    let preview = prepare_from_web_request(
        WebTurnRequest {
            message: "  hello from browser  ".to_string(),
            profile: "default".to_string(),
            client_session_id: Some("session-1".to_string()),
        },
        Some("ownpager".to_string()),
    )
    .unwrap();

    let request = preview.prepared_turn_request;
    assert_eq!(request.query_text, "hello from browser");
    assert_eq!(request.session_key, "web:default:session-1");
    assert_eq!(request.source.source_type, SourceType::Web);
    assert_eq!(request.source.user_id.as_deref(), Some("default"));
}

#[test]
fn normalizing_normalized_text_changes_nothing() {
    let once = normalize_text(" a\t b \u{2003} c\n").unwrap();
    assert_eq!(once, "a b c");
    let twice = normalize_text(&once).unwrap();
    assert_eq!(twice, once);
}

#[test]
fn cli_message_keeps_the_directory_in_its_session_key() {
    let preview = prepare_cli_message(
        "check".to_string(),
        "default".to_string(),
        None,
        Some("/tmp/my project".to_string()),
    )
    .unwrap();
    let request = preview.prepared_turn_request;
    assert_eq!(request.session_key, "cli:default:tmp/my_project");
    assert_eq!(request.source.cwd.as_deref(), Some("/tmp/my project"));
    assert_eq!(request.source.user_id.as_deref(), Some("default"));
    assert!(request.branch_id.is_none());
}

#[test]
fn blank_cli_message_is_refused() {
    let result = prepare_cli_message(
        "   ".to_string(),
        "default".to_string(),
        None,
        None,
    );
    assert!(matches!(result, Err(IntakeError::EmptyMessage)));
}

#[test]
fn web_request_with_blank_profile_uses_the_default_profile() {
    let preview = prepare_from_web_request(
        WebTurnRequest {
            message: "hi".to_string(),
            profile: "   ".to_string(),
            client_session_id: None,
        },
        None,
    )
    .unwrap();
    let request = preview.prepared_turn_request;
    assert_eq!(request.session_key, "web:default:browser");
    assert_eq!(request.source.user_id.as_deref(), Some("default"));
    assert!(request.workspace_hint.is_none());
}

#[test]
fn intake_errors_have_messages() {
    assert_eq!(IntakeError::EmptyMessage.message(), "query text is empty");
    assert_eq!(
        IntakeError::UnsupportedTelegramUpdate.message(),
        "unsupported Telegram update shape"
    );
}

#[test]
fn normalized_text_is_single_spaced() {
    let normalized = normalize_text("\u{2003} one\t\ttwo \n three \u{a0}").unwrap();
    assert_eq!(normalized, "one two three");
    assert!(!normalized.starts_with(' ') && !normalized.ends_with(' '));
    assert!(!normalized.contains("  "));
}
