//! Messages typed at the command line.
use vstd::prelude::*;

use crate::intake::{
    build_incoming_query, normalized_text, prepare_turn_request, IncomingQueryParts, IntakeError,
};
use crate::session::{cli_key, derive_cli_session_key};
use crate::thinkingroot_boundary::{preview_before_thinkingroot, PREPARE_TURN_BOUNDARY_MESSAGE};
use crate::types::{RetrievalMode, copy_opt, opt_view, PreparedTurnPreview, SourceType};

verus! {

/// Prepares a CLI message typed in the directory `cwd` under `profile`.
pub fn prepare_cli_message(
    message: String,
    profile: String,
    workspace_hint: Option<String>,
    cwd: Option<String>,
) -> (r: Result<PreparedTurnPreview, IntakeError>)
    ensures
        r is Ok <==> normalized_text(message@).len() > 0,
        r matches Err(e) ==> e == IntakeError::EmptyMessage,
        r matches Ok(p) ==> {
            let q = p.prepared_turn_request;
            &&& p.thinkingroot_boundary == PREPARE_TURN_BOUNDARY_MESSAGE
            &&& q.query_text@ == normalized_text(message@)
            &&& q.session_key@ == cli_key(profile@, opt_view(cwd))
            &&& q.source.source_type == SourceType::Cli
            &&& q.source.user_id == Some(profile)
            &&& q.source.chat_id is None
            &&& q.source.message_id is None
            &&& q.source.cwd == cwd
            &&& q.workspace_hint == workspace_hint
            &&& q.branch_id is None
            &&& q.retrieval_mode == RetrievalMode::PreTurn
            &&& q.user_profile_id is None
        },
{
    let session_key = match &cwd {
        Some(c) => derive_cli_session_key(profile.as_str(), Some(c.as_str())),
        None => derive_cli_session_key(profile.as_str(), None),
    };
    let cwd_copy = copy_opt(&cwd);
    let incoming = build_incoming_query(
        IncomingQueryParts {
            source_type: SourceType::Cli,
            raw_text: message,
            session_key,
            user_id: Some(profile),
            chat_id: None,
            message_id: None,
            cwd: cwd_copy,
            workspace_hint,
        },
    );
    match incoming {
        Ok(q) => Ok(preview_before_thinkingroot(prepare_turn_request(q))),
        Err(e) => Err(e),
    }
}

} // verus!
