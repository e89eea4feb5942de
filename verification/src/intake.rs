//! Turning a raw message from any channel into a prepared turn request.
use vstd::prelude::*;

use crate::external::{new_request_id, now_micros};
use crate::text::{chars_of, collapse, collapse_chars, string_of, CharClass};
use crate::types::{
    IncomingUserQuery, PreparedTurnRequest, RetrievalMode, SourceMetadata, SourceType,
};

verus! {

#[derive(Clone, Copy, Debug, PartialEq, Eq, Structural)]
pub enum IntakeError {
    EmptyMessage,
    UnsupportedTelegramUpdate,
}

impl IntakeError {
    /// The text the error displays as.
    pub fn message(&self) -> (s: String)
        ensures
            *self is EmptyMessage ==> s@ == "query text is empty"@,
            *self is UnsupportedTelegramUpdate ==> s@ == "unsupported Telegram update shape"@,
    {
        match self {
            IntakeError::EmptyMessage => string_of(&chars_of("query text is empty")),
            IntakeError::UnsupportedTelegramUpdate => string_of(
                &chars_of("unsupported Telegram update shape"),
            ),
        }
    }
}

#[derive(Clone, Debug)]
pub struct IncomingQueryParts {
    pub source_type: SourceType,
    pub raw_text: String,
    pub session_key: String,
    pub user_id: Option<String>,
    pub chat_id: Option<String>,
    pub message_id: Option<String>,
    pub cwd: Option<String>,
    pub workspace_hint: Option<String>,
}

/// The words of `raw` (maximal runs of non-white-space characters) joined by single spaces.
pub open spec fn normalized_text(raw: Seq<char>) -> Seq<char> {
    collapse(raw, CharClass::Whitespace, ' ')
}

/// Collapses white space: the words of `raw_text` joined by single spaces.
/// A message with no words is refused.
pub fn normalize_text(raw_text: &str) -> (r: Result<String, IntakeError>)
    ensures
        r is Ok <==> normalized_text(raw_text@).len() > 0,
        r matches Ok(s) ==> s@ == normalized_text(raw_text@),
        r matches Err(e) ==> e == IntakeError::EmptyMessage,
{
    let chars = chars_of(raw_text);
    let normalized = collapse_chars(&chars, CharClass::Whitespace, ' ');
    if normalized.len() == 0 {
        return Err(IntakeError::EmptyMessage);
    }
    Ok(string_of(&normalized))
}

/// The incoming query for `parts`, with the given identifier and arrival time.
pub fn assemble_incoming_query(parts: IncomingQueryParts, request_id: u128, received_at: i64) -> (r:
    Result<IncomingUserQuery, IntakeError>)
    ensures
        r is Ok <==> normalized_text(parts.raw_text@).len() > 0,
        r matches Err(e) ==> e == IntakeError::EmptyMessage,
        r matches Ok(q) ==> {
            &&& q.request_id == request_id
            &&& q.received_at == received_at
            &&& q.source_type == parts.source_type
            &&& q.raw_text == parts.raw_text
            &&& q.normalized_text@ == normalized_text(parts.raw_text@)
            &&& q.session_key == parts.session_key
            &&& q.user_id == parts.user_id
            &&& q.chat_id == parts.chat_id
            &&& q.message_id == parts.message_id
            &&& q.cwd == parts.cwd
            &&& q.workspace_hint == parts.workspace_hint
        },
{
    let normalized_text = match normalize_text(parts.raw_text.as_str()) {
        Ok(t) => t,
        Err(e) => return Err(e),
    };
    Ok(
        IncomingUserQuery {
            request_id,
            source_type: parts.source_type,
            raw_text: parts.raw_text,
            normalized_text,
            received_at,
            session_key: parts.session_key,
            user_id: parts.user_id,
            chat_id: parts.chat_id,
            message_id: parts.message_id,
            cwd: parts.cwd,
            workspace_hint: parts.workspace_hint,
        },
    )
}

/// The incoming query for `parts`, with a fresh random identifier and the current time.
pub fn build_incoming_query(parts: IncomingQueryParts) -> (r: Result<IncomingUserQuery, IntakeError>)
    ensures
        r is Ok <==> normalized_text(parts.raw_text@).len() > 0,
        r matches Err(e) ==> e == IntakeError::EmptyMessage,
        r matches Ok(q) ==> {
            &&& q.source_type == parts.source_type
            &&& q.raw_text == parts.raw_text
            &&& q.normalized_text@ == normalized_text(parts.raw_text@)
            &&& q.session_key == parts.session_key
            &&& q.user_id == parts.user_id
            &&& q.chat_id == parts.chat_id
            &&& q.message_id == parts.message_id
            &&& q.cwd == parts.cwd
            &&& q.workspace_hint == parts.workspace_hint
        },
{
    let request_id = new_request_id();
    let received_at = now_micros();
    assemble_incoming_query(parts, request_id, received_at)
}

/// The turn request handed to ThinkingRoot for an incoming query.
pub fn prepare_turn_request(query: IncomingUserQuery) -> (r: PreparedTurnRequest)
    ensures
        r.request_id == query.request_id,
        r.query_text == query.normalized_text,
        r.session_key == query.session_key,
        r.workspace_hint == query.workspace_hint,
        r.source == (SourceMetadata {
            source_type: query.source_type,
            user_id: query.user_id,
            chat_id: query.chat_id,
            message_id: query.message_id,
            cwd: query.cwd,
        }),
        r.retrieval_mode == RetrievalMode::PreTurn,
        r.branch_id is None,
        r.user_profile_id is None,
{
    PreparedTurnRequest {
        request_id: query.request_id,
        query_text: query.normalized_text,
        session_key: query.session_key,
        workspace_hint: query.workspace_hint,
        source: SourceMetadata {
            source_type: query.source_type,
            user_id: query.user_id,
            chat_id: query.chat_id,
            message_id: query.message_id,
            cwd: query.cwd,
        },
        retrieval_mode: RetrievalMode::PreTurn,
        branch_id: None,
        user_profile_id: None,
    }
}

} // verus!
