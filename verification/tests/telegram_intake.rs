use ownpager::intake::IntakeError;
use ownpager::telegram::{
    prepare_from_update, TelegramChat, TelegramMessage, TelegramUpdate, TelegramUser,
};
use ownpager::thinkingroot_boundary::PREPARE_TURN_BOUNDARY_MESSAGE;
use ownpager::types::{RetrievalMode, SourceType};

fn update(
    update_id: i64,
    message_id: i64,
    from: Option<(i64, Option<&str>)>,
    chat_id: i64,
    text: Option<&str>,
) -> TelegramUpdate {
    TelegramUpdate {
        update_id,
        message: Some(TelegramMessage {
            message_id,
            from: from.map(|(id, username)| TelegramUser {
                id,
                username: username.map(str::to_string),
            }),
            chat: TelegramChat {
                id: chat_id,
                chat_type: Some("private".to_string()),
                title: None,
                username: None,
            },
            text: text.map(str::to_string),
        }),
    }
}

#[test]
fn telegram_update_is_ready_for_thinkingroot_without_invoking_it() {
    let update = update(
        42,
        99,
        Some((888, Some("agent_user"))),
        555,
        Some("What does the bridge do?"),
    );
    let preview = prepare_from_update(update, Some("ownpager".to_string())).unwrap();
    let request = preview.prepared_turn_request;

    assert_eq!(preview.thinkingroot_boundary, PREPARE_TURN_BOUNDARY_MESSAGE);
    assert_eq!(request.query_text, "What does the bridge do?");
    assert_eq!(request.retrieval_mode, RetrievalMode::PreTurn);
    assert_eq!(request.source.source_type, SourceType::Telegram);
    assert_eq!(request.workspace_hint.as_deref(), Some("ownpager"));
}

#[test]
fn parses_telegram_update_into_prepared_turn_request() {
    let update = update(
        1,
        10,
        Some((777, Some("alen"))),
        12345,
        Some("  hello from telegram  "),
    );
    let preview = prepare_from_update(update, Some("ownpager".to_string())).unwrap();

    let request = preview.prepared_turn_request;
    assert_eq!(request.query_text, "hello from telegram");
    assert_eq!(request.session_key, "telegram:12345:777");
    assert_eq!(request.source.source_type, SourceType::Telegram);
    assert_eq!(request.source.chat_id.as_deref(), Some("12345"));
    assert_eq!(request.source.user_id.as_deref(), Some("777"));
}

#[test]
fn rejects_update_without_text() {
    let update = update(1, 10, Some((777, None)), 12345, None);
    assert_eq!(
        prepare_from_update(update, None).unwrap_err(),
        IntakeError::UnsupportedTelegramUpdate
    );
}

#[test]
fn rejects_update_without_message() {
    let update = TelegramUpdate { update_id: 3, message: None };
    assert_eq!(
        prepare_from_update(update, None).unwrap_err(),
        IntakeError::UnsupportedTelegramUpdate
    );
}

#[test]
fn update_without_sender_uses_unknown_user_and_keeps_message_id() {
    let update = update(5, 77, None, -100, Some("group note"));
    let preview = prepare_from_update(update, None).unwrap();
    let request = preview.prepared_turn_request;
    assert_eq!(request.session_key, "telegram:-100:unknown_user");
    assert_eq!(request.source.message_id.as_deref(), Some("77"));
    assert_eq!(request.source.chat_id.as_deref(), Some("-100"));
    assert!(request.source.user_id.is_none());
}

#[test]
fn blank_telegram_text_is_an_empty_message() {
    let update = update(6, 1, Some((1, None)), 2, Some(" \n "));
    assert_eq!(
        prepare_from_update(update, None).unwrap_err(),
        IntakeError::EmptyMessage
    );
}
