//! Updates delivered by the Telegram webhook.
use vstd::prelude::*;

use crate::intake::{
    build_incoming_query, normalized_text, prepare_turn_request, IncomingQueryParts, IntakeError,
};
use crate::numbers::{signed_decimal_chars, signed_decimal_text};
use crate::session::{derive_telegram_session_key, telegram_key};
use crate::text::string_of;
use crate::thinkingroot_boundary::{preview_before_thinkingroot, PREPARE_TURN_BOUNDARY_MESSAGE};
use crate::types::{RetrievalMode, PreparedTurnPreview, SourceType};

verus! {

#[derive(Clone, Debug)]
pub struct TelegramUpdate {
    pub update_id: i64,
    pub message: Option<TelegramMessage>,
}

#[derive(Clone, Debug)]
pub struct TelegramMessage {
    pub message_id: i64,
    pub from: Option<TelegramUser>,
    pub chat: TelegramChat,
    pub text: Option<String>,
}

#[derive(Clone, Debug)]
pub struct TelegramUser {
    pub id: i64,
    pub username: Option<String>,
}

#[derive(Clone, Debug)]
pub struct TelegramChat {
    pub id: i64,
    pub chat_type: Option<String>,
    pub title: Option<String>,
    pub username: Option<String>,
}

/// The sender's id as text, when the message has a sender.
pub open spec fn sender_text(m: TelegramMessage) -> Option<Seq<char>> {
    match m.from {
        Some(u) => Some(signed_decimal_text(u.id as int)),
        None => None,
    }
}

/// Prepares the text message of an update. An update without a message, or
/// whose message has no text, is refused.
pub fn prepare_from_update(update: TelegramUpdate, workspace_hint: Option<String>) -> (r: Result<
    PreparedTurnPreview,
    IntakeError,
>)
    ensures
        (update.message is None || update.message->0.text is None) ==> r == Err::<
            PreparedTurnPreview,
            IntakeError,
        >(IntakeError::UnsupportedTelegramUpdate),
        update.message is Some && update.message->0.text is Some ==> {
            let m = update.message->0;
            let text = m.text->0;
            &&& (r is Ok <==> normalized_text(text@).len() > 0)
            &&& r matches Err(e) ==> e == IntakeError::EmptyMessage
            &&& r matches Ok(p) ==> {
                let q = p.prepared_turn_request;
                &&& p.thinkingroot_boundary == PREPARE_TURN_BOUNDARY_MESSAGE
                &&& q.query_text@ == normalized_text(text@)
                &&& q.session_key@ == telegram_key(
                    signed_decimal_text(m.chat.id as int),
                    sender_text(m),
                )
                &&& q.source.source_type == SourceType::Telegram
                &&& (match q.source.user_id {
                    Some(u) => sender_text(m) == Some(u@),
                    None => sender_text(m) is None,
                })
                &&& q.source.chat_id matches Some(c) && c@ == signed_decimal_text(m.chat.id as int)
                &&& q.source.message_id matches Some(i) && i@ == signed_decimal_text(
                    m.message_id as int,
                )
                &&& q.source.cwd is None
                &&& q.workspace_hint == workspace_hint
                &&& q.retrieval_mode == RetrievalMode::PreTurn
                &&& q.user_profile_id is None
                &&& q.branch_id is None
            }
        },
{
    let message = match update.message {
        Some(m) => m,
        None => return Err(IntakeError::UnsupportedTelegramUpdate),
    };
    let text = match message.text {
        Some(t) => t,
        None => return Err(IntakeError::UnsupportedTelegramUpdate),
    };
    let chat_id = string_of(&signed_decimal_chars(message.chat.id));
    let user_id: Option<String> = match &message.from {
        Some(user) => Some(string_of(&signed_decimal_chars(user.id))),
        None => None,
    };
    let session_key = match &user_id {
        Some(u) => derive_telegram_session_key(chat_id.as_str(), Some(u.as_str())),
        None => derive_telegram_session_key(chat_id.as_str(), None),
    };
    let message_id = string_of(&signed_decimal_chars(message.message_id));
    let incoming = build_incoming_query(
        IncomingQueryParts {
            source_type: SourceType::Telegram,
            raw_text: text,
            session_key,
            user_id,
            chat_id: Some(chat_id),
            message_id: Some(message_id),
            cwd: None,
            workspace_hint,
        },
    );
    match incoming {
        Ok(q) => Ok(preview_before_thinkingroot(prepare_turn_request(q))),
        Err(e) => Err(e),
    }
}

} // verus!
