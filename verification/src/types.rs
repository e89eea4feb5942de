//! The records that travel between intake, ThinkingRoot, the model and the terminal.
//!
//! Request identifiers are UUIDs held as their 128-bit value; instants are
//! microseconds since the Unix epoch; JSON documents use [`JsonValue`].
use vstd::prelude::*;

use crate::json::{JsonNumber, JsonValue};

verus! {

#[derive(Clone, Copy, Debug, PartialEq, Eq, Structural)]
pub enum SourceType {
    Cli,
    Telegram,
    Web,
}

#[derive(Clone, Copy, Debug, PartialEq, Eq, Structural)]
pub enum RetrievalMode {
    PreTurn,
}

#[derive(Clone, Debug)]
pub struct IncomingUserQuery {
    pub request_id: u128,
    pub source_type: SourceType,
    pub raw_text: String,
    pub normalized_text: String,
    /// Microseconds since the Unix epoch.
    pub received_at: i64,
    pub session_key: String,
    pub user_id: Option<String>,
    pub chat_id: Option<String>,
    pub message_id: Option<String>,
    pub cwd: Option<String>,
    pub workspace_hint: Option<String>,
}

#[derive(Clone, Debug)]
pub struct SourceMetadata {
    pub source_type: SourceType,
    pub user_id: Option<String>,
    pub chat_id: Option<String>,
    pub message_id: Option<String>,
    pub cwd: Option<String>,
}

#[derive(Clone, Debug)]
pub struct PreparedTurnRequest {
    pub request_id: u128,
    pub query_text: String,
    pub session_key: String,
    pub workspace_hint: Option<String>,
    pub source: SourceMetadata,
    pub retrieval_mode: RetrievalMode,
    pub branch_id: Option<String>,
    pub user_profile_id: Option<String>,
}

#[derive(Clone, Debug)]
pub struct AgentIdentity {
    pub agent_id: String,
    pub scoped_user_id: String,
    pub workspace: String,
    pub prompt_name: Option<String>,
    pub session_id: String,
}

#[derive(Clone, Debug)]
pub struct ThinkingRootClaim {
    pub claim_id: String,
    pub statement: String,
    pub claim_type: String,
    pub source_uri: String,
}

/// A tool ranked by ThinkingRoot routing; the score is kept as the JSON number it arrived as.
#[derive(Clone, Debug)]
pub struct ThinkingRootRoutedTool {
    pub name: String,
    pub score: Option<JsonNumber>,
}

#[derive(Clone, Debug)]
pub struct ThinkingRootCapsule {
    pub system_prompt: String,
    pub grounded_claims: Vec<ThinkingRootClaim>,
    pub routed_tools: Vec<String>,
    pub token_estimate: usize,
    pub query_class: Option<String>,
    pub cache_hit: bool,
    pub frame_warm: bool,
    pub warnings: Vec<String>,
}

#[derive(Clone, Debug)]
pub struct ThinkingRootHotPathResult {
    pub agent_identity: AgentIdentity,
    pub capsule: ThinkingRootCapsule,
    pub route_tools: Vec<ThinkingRootRoutedTool>,
    pub cold_start_degraded: bool,
    pub used_route_fallback: bool,
    pub branch_run: Option<ThinkingRootBranchRun>,
    pub warnings: Vec<String>,
}

#[derive(Clone, Debug)]
pub struct ThinkingRootBranchRun {
    pub branch_id: String,
    pub parent: String,
    pub merge_policy: Option<String>,
    pub forked: bool,
    pub checked_out: bool,
    pub merged: bool,
    pub merge_error: Option<String>,
}

#[derive(Debug)]
pub struct ThinkingRootFlowRun {
    pub flow_id: String,
    pub flow_run_id: String,
    pub status: String,
    pub output: Option<JsonValue>,
    pub raw: JsonValue,
}

#[derive(Clone, Debug)]
pub struct PreparedTurnPreview {
    pub prepared_turn_request: PreparedTurnRequest,
    pub thinkingroot_boundary: &'static str,
}

#[derive(Clone, Debug)]
pub struct AgentTurnExecutionPlan {
    pub available_tool_names: Vec<String>,
    pub used_local_fallback: bool,
}

#[derive(Clone, Debug)]
pub struct AgentTurnRequest {
    pub prepared_turn_request: PreparedTurnRequest,
    pub agent_identity: Option<AgentIdentity>,
    pub agent_id: Option<String>,
    pub prompt_name: Option<String>,
    pub session_id: Option<String>,
}

#[derive(Debug)]
pub struct AgentToolExecutionRecord {
    pub tool_name: String,
    pub arguments: JsonValue,
    pub result: JsonValue,
    pub routed: bool,
}

#[derive(Clone, Debug)]
pub struct PostTurnKnowledgeCapture {
    pub request_id: u128,
    pub agent_identity: AgentIdentity,
    pub summary: Option<String>,
    pub facts: Vec<String>,
    pub decisions: Vec<String>,
}

#[derive(Clone, Copy, Debug, PartialEq, Eq, Structural)]
pub struct ThinkingRootCaptureResult {
    pub accepted: usize,
}

#[derive(Clone, Copy, Debug, PartialEq, Eq, Structural)]
pub struct AgentTurnUsageEstimate {
    pub capsule_token_estimate: usize,
    pub api_call_count: usize,
    pub input_tokens: usize,
    pub output_tokens: usize,
    pub cached_input_tokens: usize,
    pub reasoning_output_tokens: usize,
    pub total_tokens: usize,
}

#[derive(Debug)]
pub struct AgentTurnResult {
    pub request_id: u128,
    pub final_answer: String,
    pub agent_identity: AgentIdentity,
    pub thinkingroot_hot_path: ThinkingRootHotPathResult,
    pub execution_plan: AgentTurnExecutionPlan,
    pub tool_calls: Vec<AgentToolExecutionRecord>,
    pub flow_run: Option<ThinkingRootFlowRun>,
    pub captured_knowledge: PostTurnKnowledgeCapture,
    pub capture_result: Option<ThinkingRootCaptureResult>,
    pub usage_estimate: AgentTurnUsageEstimate,
    pub warnings: Vec<String>,
}

#[derive(Clone, Debug)]
pub struct TerminalCommandRequest {
    pub command: String,
    pub workdir: Option<String>,
    pub timeout_seconds: Option<u64>,
    pub max_output_bytes: Option<usize>,
    pub allowed_root: Option<String>,
}

#[derive(Clone, Copy, Debug, PartialEq, Eq, Structural)]
pub enum TerminalCommandStatus {
    Success,
    Failed,
    Blocked,
    TimedOut,
}

#[derive(Clone, Debug)]
pub struct TerminalSafetyDecision {
    pub allowed: bool,
    pub reason: Option<String>,
}

#[derive(Clone, Debug)]
pub struct TerminalCommandResult {
    pub command: String,
    pub cwd: String,
    pub status: TerminalCommandStatus,
    pub exit_code: Option<i32>,
    pub stdout: String,
    pub stderr: String,
    pub duration_ms: u128,
    pub truncated: bool,
    pub safety: TerminalSafetyDecision,
}

/// How much grounded knowledge a ThinkingRoot preparation carried.
#[derive(Clone, Copy, Debug, PartialEq, Eq, Structural)]
pub enum ThinkingRootKnowledgeStatus {
    Empty,
    Weak,
    Sufficient,
    Unavailable,
}

/// What ThinkingRoot returns for a `prepare_turn` call.
#[derive(Clone, Debug)]
pub struct PreparedTurnResponse {
    pub grounded_memory_block: String,
    pub referenced_entities: Vec<String>,
    pub provenance_ids: Vec<String>,
    pub warnings: Vec<String>,
    pub knowledge_status: ThinkingRootKnowledgeStatus,
}

/// `Option<String>` by the characters it holds.
pub open spec fn opt_view(o: Option<String>) -> Option<Seq<char>> {
    match o {
        Some(s) => Some(s@),
        None => None,
    }
}

/// A copy of an optional string.
pub fn copy_opt(o: &Option<String>) -> (r: Option<String>)
    ensures
        r == *o,
{
    match o {
        Some(s) => Some(s.clone()),
        None => None,
    }
}

impl AgentIdentity {
    /// A field-for-field copy.
    pub fn duplicate(&self) -> (r: AgentIdentity)
        ensures
            r == *self,
    {
        AgentIdentity {
            agent_id: self.agent_id.clone(),
            scoped_user_id: self.scoped_user_id.clone(),
            workspace: self.workspace.clone(),
            prompt_name: copy_opt(&self.prompt_name),
            session_id: self.session_id.clone(),
        }
    }
}

impl SourceMetadata {
    /// A field-for-field copy.
    pub fn duplicate(&self) -> (r: SourceMetadata)
        ensures
            r == *self,
    {
        SourceMetadata {
            source_type: self.source_type,
            user_id: copy_opt(&self.user_id),
            chat_id: copy_opt(&self.chat_id),
            message_id: copy_opt(&self.message_id),
            cwd: copy_opt(&self.cwd),
        }
    }
}

impl PreparedTurnRequest {
    /// A field-for-field copy.
    pub fn duplicate(&self) -> (r: PreparedTurnRequest)
        ensures
            r == *self,
    {
        PreparedTurnRequest {
            request_id: self.request_id,
            query_text: self.query_text.clone(),
            session_key: self.session_key.clone(),
            workspace_hint: copy_opt(&self.workspace_hint),
            source: self.source.duplicate(),
            retrieval_mode: self.retrieval_mode,
            branch_id: copy_opt(&self.branch_id),
            user_profile_id: copy_opt(&self.user_profile_id),
        }
    }
}

} // verus!
