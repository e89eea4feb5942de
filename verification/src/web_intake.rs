//! Messages posted by the browser front end.
use vstd::prelude::*;

use crate::intake::{
    build_incoming_query, normalized_text, prepare_turn_request, IncomingQueryParts, IntakeError,
};
use crate::session::{derive_web_session_key, web_key};
use crate::text::{chars_of, string_of, trim_chars, trim_ws, CharClass};
use crate::thinkingroot_boundary::{preview_before_thinkingroot, PREPARE_TURN_BOUNDARY_MESSAGE};
use crate::types::{RetrievalMode, copy_opt, opt_view, PreparedTurnPreview, SourceType};

verus! {

/// A turn request as the browser posts it.
#[derive(Clone, Debug)]
pub struct WebTurnRequest {
    pub message: String,
    pub profile: String,
    pub client_session_id: Option<String>,
}

/// The profile used when a request names none.
pub fn default_profile() -> (s: String)
    ensures
        s@ == "default"@,
{
    string_of(&chars_of("default"))
}

/// The profile a request is served under: its trimmed profile, or `default` when that is blank.
pub open spec fn effective_profile(profile: Seq<char>) -> Seq<char> {
    if trim_ws(profile).len() == 0 {
        "default"@
    } else {
        trim_ws(profile)
    }
}

/// Prepares a browser message.
pub fn prepare_from_web_request(request: WebTurnRequest, workspace_hint: Option<String>) -> (r:
    Result<PreparedTurnPreview, IntakeError>)
    ensures
        r is Ok <==> normalized_text(request.message@).len() > 0,
        r matches Err(e) ==> e == IntakeError::EmptyMessage,
        r matches Ok(p) ==> {
            let q = p.prepared_turn_request;
            &&& p.thinkingroot_boundary == PREPARE_TURN_BOUNDARY_MESSAGE
            &&& q.query_text@ == normalized_text(request.message@)
            &&& q.session_key@ == web_key(
                effective_profile(request.profile@),
                opt_view(request.client_session_id),
            )
            &&& q.source.source_type == SourceType::Web
            &&& q.source.user_id matches Some(u) && u@ == effective_profile(request.profile@)
            &&& q.source.chat_id is None
            &&& q.source.message_id == request.client_session_id
            &&& q.source.cwd is None
            &&& q.workspace_hint == workspace_hint
            &&& q.retrieval_mode == RetrievalMode::PreTurn
            &&& q.user_profile_id is None
            &&& q.branch_id is None
        },
{
    let trimmed = trim_chars(&chars_of(request.profile.as_str()), CharClass::Whitespace);
    let profile = if trimmed.len() == 0 {
        default_profile()
    } else {
        string_of(&trimmed)
    };
    let session_key = match &request.client_session_id {
        Some(s) => derive_web_session_key(profile.as_str(), Some(s.as_str())),
        None => derive_web_session_key(profile.as_str(), None),
    };
    let message_id = copy_opt(&request.client_session_id);
    let incoming = build_incoming_query(
        IncomingQueryParts {
            source_type: SourceType::Web,
            raw_text: request.message,
            session_key,
            user_id: Some(profile),
            chat_id: None,
            message_id,
            cwd: None,
            workspace_hint,
        },
    );
    match incoming {
        Ok(q) => Ok(preview_before_thinkingroot(prepare_turn_request(q))),
        Err(e) => Err(e),
    }
}

} // verus!
