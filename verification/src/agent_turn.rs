//! One agent turn as a state machine.
//!
//! The turn decides; the caller acts. Each method takes the outcome of the
//! last action (a branch call, the capsule, a flow snapshot, the routed
//! tools, a model reply, a tool result, the store and the merge) and hands
//! back the next action. The caller performs it and reports its outcome to
//! the method named after it, until the turn asks to `Finish` or `Fail`.
use vstd::prelude::*;

use crate::agent_runner::{
    build_instructions, build_post_turn_capture, build_terminal_request,
    build_tool_iteration_limit_answer, copy_strings, terminal_request_from, derive_turn_branch_id, dispatch_of,
    error_result, flow_answer, flow_final_answer, flow_inputs, instructions_text, is_flow_inputs,
    is_flow_failure_status, is_flow_success_status, is_user_message, iteration_limit_answer,
    merge_openai_usage, not_routed_message, plan_for, plan_view, select_flow_id, selected_flow,
    strings_view, turn_branch_id, unmapped_message, usage_addable, usage_added, user_message,
    asks_for_inspection, asks_for_terminal_or_workspace_inspection, flow_failure_word,
    flow_success_word, ExecutionPlan, ToolDispatch, ToolDispatchModel, ToolRegistry,
    ToolSpecKind, sentences_of, turn_decisions,
};
use crate::config::AgentRuntimeConfig;
use crate::external::request_id_text;
use crate::json::{json_get, str_field, JsonValue};
use crate::numbers::{decimal_chars, decimal_text, uuid_text};
use crate::openai_responses::{OpenAiFunctionCall, OpenAiResponse, OpenAiTokenUsage};
use crate::text::{
    chars_of, concat_chars, lower_chars, lower_seq, push_str, string_of, trim_chars, trim_ws,
    CharClass,
};
use crate::types::{
    copy_opt, opt_view, AgentIdentity, AgentToolExecutionRecord, AgentTurnExecutionPlan,
    AgentTurnRequest, AgentTurnResult, AgentTurnUsageEstimate, PostTurnKnowledgeCapture,
    PreparedTurnRequest, TerminalCommandRequest, ThinkingRootBranchRun, ThinkingRootCaptureResult,
    ThinkingRootCapsule, ThinkingRootFlowRun, ThinkingRootHotPathResult, ThinkingRootRoutedTool,
};

verus! {

/// Where a turn stands: the outcome it waits for, or its end.
#[derive(Clone, Copy, Debug, PartialEq, Eq, Structural)]
pub enum TurnStage {
    Forking,
    CheckingOut,
    LoadingCapsule,
    RunningFlow,
    Routing,
    AwaitingModel,
    RunningTool,
    Storing,
    Merging,
    Finished,
    Failed,
}

/// What the caller is asked to do next.
#[derive(Debug)]
pub enum TurnAction {
    /// Fork this branch from `parent`, described as given.
    ForkBranch { branch_id: String, parent: String, description: String, merge_policy: Option<String> },
    /// Check out the forked branch.
    CheckoutBranch { branch_id: String },
    /// Ask ThinkingRoot for the capsule of the turn's prepared request.
    LoadCapsule,
    /// Start this flow with these inputs.
    StartFlow { flow_id: String, inputs: JsonValue },
    /// Wait `wait_ms`, then read the flow run again.
    PollFlow { flow_id: String, flow_run_id: String, wait_ms: u64 },
    /// Ask ThinkingRoot which tools fit the query.
    Route { query: String, branch_id: Option<String>, top_k: usize },
    /// Ask the model for a reply to the turn's instructions, input and tools.
    CallModel,
    /// Invoke a Root Function with the current call's `input` member, or
    /// with all of its arguments when it has no such member.
    InvokeRootFunction { function_name: String, input_is_member: bool },
    /// Run this terminal command.
    RunTerminal(TerminalCommandRequest),
    /// Store the turn's captured knowledge.
    Store,
    /// Merge the turn's branch.
    MergeBranch { branch_id: String, merge_policy: Option<String> },
    /// The turn is over: take its result.
    Finish,
    /// The turn failed with this error.
    Fail(String),
}

/// An item of the model's input: a JSON item as it stands, or the output
/// of a recorded tool call, which the caller writes out as JSON text.
#[derive(Debug)]
pub enum TurnInput {
    Item(JsonValue),
    ToolOutput { call_id: String, record: usize },
}

/// The tool whose result the turn waits for.
#[derive(Clone, Debug)]
pub enum CurrentTool {
    RootFunction(String),
    Terminal,
}

/// The state of one turn.
pub struct AgentTurn {
    pub config: AgentRuntimeConfig,
    pub prepared: PreparedTurnRequest,
    pub identity: AgentIdentity,
    pub stage: TurnStage,
    pub registry: ToolRegistry,
    pub warnings: Vec<String>,
    pub hot_path_warnings: Vec<String>,
    pub branch_id: Option<String>,
    pub branch_run: Option<ThinkingRootBranchRun>,
    pub capsule: Option<ThinkingRootCapsule>,
    pub flow_id: Option<String>,
    pub flow_started: bool,
    pub flow_run: Option<ThinkingRootFlowRun>,
    pub route_tools: Vec<ThinkingRootRoutedTool>,
    pub cold_start_degraded: bool,
    pub used_route_fallback: bool,
    pub used_local_fallback: bool,
    pub should_bootstrap_terminal: bool,
    pub allowed_tool_names: Vec<String>,
    pub plan: Option<ExecutionPlan>,
    pub instructions: String,
    pub input: Vec<TurnInput>,
    pub step: usize,
    pub pending_calls: Vec<OpenAiFunctionCall>,
    pub pending_arguments: Vec<Result<JsonValue, String>>,
    pub current_call_id: String,
    pub current_call_name: String,
    pub current_tool: Option<CurrentTool>,
    pub current_arguments: Option<JsonValue>,
    pub tool_calls: Vec<AgentToolExecutionRecord>,
    pub usage: AgentTurnUsageEstimate,
    pub final_answer: String,
    pub capture: Option<PostTurnKnowledgeCapture>,
    pub capture_result: Option<ThinkingRootCaptureResult>,
    /// The token usage of each model reply, in order.
    pub replies: Ghost<Seq<Option<OpenAiTokenUsage>>>,
    /// The write-backs asked for so far, in order.
    pub writebacks: Ghost<Seq<Writeback>>,
}

/// A write-back a turn asks ThinkingRoot for once it has its answer.
pub enum Writeback {
    /// Storing the captured knowledge.
    Store,
    /// Merging the turn's branch.
    Merge,
}

/// A token count of a reply, or of a turn's totals.
pub enum TokenCount {
    Input,
    Output,
    CachedInput,
    ReasoningOutput,
    Total,
}

/// The count `k` of a reply's usage.
pub open spec fn reply_count(u: OpenAiTokenUsage, k: TokenCount) -> nat {
    match k {
        TokenCount::Input => u.input_tokens as nat,
        TokenCount::Output => u.output_tokens as nat,
        TokenCount::CachedInput => u.cached_input_tokens as nat,
        TokenCount::ReasoningOutput => u.reasoning_output_tokens as nat,
        TokenCount::Total => u.total_tokens as nat,
    }
}

/// The count `k` of a turn's totals.
pub open spec fn total_count(u: AgentTurnUsageEstimate, k: TokenCount) -> nat {
    match k {
        TokenCount::Input => u.input_tokens as nat,
        TokenCount::Output => u.output_tokens as nat,
        TokenCount::CachedInput => u.cached_input_tokens as nat,
        TokenCount::ReasoningOutput => u.reasoning_output_tokens as nat,
        TokenCount::Total => u.total_tokens as nat,
    }
}

/// The sum of count `k` over the replies; a reply without usage counts 0.
pub open spec fn replies_total(replies: Seq<Option<OpenAiTokenUsage>>, k: TokenCount) -> nat
    decreases replies.len(),
{
    if replies.len() == 0 {
        0
    } else {
        replies_total(replies.drop_last(), k) + match replies.last() {
            Some(u) => reply_count(u, k),
            None => 0,
        }
    }
}

/// The turn's totals are the sums over its replies, one call per reply.
pub open spec fn usage_sums(u: AgentTurnUsageEstimate, replies: Seq<Option<OpenAiTokenUsage>>) -> bool {
    &&& u.api_call_count == replies.len()
    &&& total_count(u, TokenCount::Input) == replies_total(replies, TokenCount::Input)
    &&& total_count(u, TokenCount::Output) == replies_total(replies, TokenCount::Output)
    &&& total_count(u, TokenCount::CachedInput) == replies_total(replies, TokenCount::CachedInput)
    &&& total_count(u, TokenCount::ReasoningOutput) == replies_total(
        replies,
        TokenCount::ReasoningOutput,
    )
    &&& total_count(u, TokenCount::Total) == replies_total(replies, TokenCount::Total)
}

/// The warning given when the merge of the turn's branch failed.
pub open spec fn merge_warning(e: Seq<char>) -> Seq<char> {
    "ThinkingRoot branch merge failed: "@ + e
}

/// The write-backs of a finished turn: the store, then the merge when the
/// turn ran on its own branch.
pub open spec fn finished_writebacks(branch_per_run: bool) -> Seq<Writeback> {
    if branch_per_run {
        seq![Writeback::Store, Writeback::Merge]
    } else {
        seq![Writeback::Store]
    }
}

/// The local tools a turn can run: the terminal alone, reached as
/// `terminal` or `function::terminal`.
pub open spec fn default_registry(r: ToolRegistry) -> bool {
    &&& r.specs@.len() == 1
    &&& r.specs@[0].canonical_name@ == "terminal"@
    &&& strings_view(r.specs@[0].route_aliases@) == seq!["terminal"@, "function::terminal"@]
    &&& r.specs@[0].kind == ToolSpecKind::LocalTerminal
}

/// The branch a turn forks: the one the request names, else one derived
/// from the agent, the request id and the query.
pub open spec fn planned_branch_id(prepared: PreparedTurnRequest, identity: AgentIdentity) -> Seq<char> {
    match prepared.branch_id {
        Some(b) => b@,
        None => turn_branch_id(
            identity.agent_id@,
            uuid_text(prepared.request_id),
            prepared.query_text@,
        ),
    }
}

/// Whether a live stage comes after the branch was forked and checked out.
pub open spec fn past_checkout(s: TurnStage) -> bool {
    s != TurnStage::Forking && s != TurnStage::CheckingOut && s != TurnStage::Failed
}

/// The warning given when the capsule's system prompt is blank.
pub open spec fn empty_frame_warning(prompt_name: Option<Seq<char>>) -> Seq<char> {
    "ThinkingRoot prompt `"@ + (match prompt_name {
        Some(p) => p,
        None => "<unset>"@,
    }) + "` compiled to an empty system frame"@
}

/// Whether the capsule grounds the turn: it has claims or a non-blank system prompt.
pub open spec fn has_grounding(c: ThinkingRootCapsule) -> bool {
    c.grounded_claims@.len() > 0 || trim_ws(c.system_prompt@).len() > 0
}

/// Whether the turn falls back to the local terminal: ThinkingRoot routed
/// nothing, local execution is allowed, and the capsule does not ground the
/// turn or the query asks to inspect a local workspace.
pub open spec fn bootstraps_terminal(c: ThinkingRootCapsule, config: AgentRuntimeConfig, query: Seq<char>) -> bool {
    c.routed_tools@.len() == 0 && config.allow_local_terminal && (!has_grounding(c)
        || asks_for_inspection(query))
}

/// The warnings a capsule adds: its own, then the blank-frame warning when its prompt is blank.
pub open spec fn capsule_warnings(c: ThinkingRootCapsule, identity: AgentIdentity) -> Seq<Seq<char>> {
    if trim_ws(c.system_prompt@).len() == 0 {
        strings_view(c.warnings@).push(empty_frame_warning(opt_view(identity.prompt_name)))
    } else {
        strings_view(c.warnings@)
    }
}

/// The names of routed tools, in order.
pub open spec fn route_names(tools: Seq<ThinkingRootRoutedTool>) -> Seq<Seq<char>> {
    tools.map_values(|t: ThinkingRootRoutedTool| t.name@)
}

impl AgentTurn {
    /// What holds of a turn in every stage.
    pub open spec fn inv(self) -> bool {
        &&& self.base_inv()
        &&& self.stage_inv()
    }

    /// What holds in every stage, the stage aside.
    pub open spec fn base_inv(self) -> bool {
        &&& self.config.max_tool_iterations < usize::MAX
        &&& default_registry(self.registry)
        &&& self.usage.api_call_count <= self.config.max_tool_iterations + 1
        &&& (self.stage == TurnStage::Forking || self.stage == TurnStage::CheckingOut) ==> {
            &&& self.config.branch_per_run
            &&& self.branch_id is Some
            &&& self.branch_run is None
        }
        &&& past_checkout(self.stage) ==> (self.branch_run is Some <==> self.config.branch_per_run)
        &&& self.branch_run matches Some(b) ==> self.prepared.branch_id == Some(b.branch_id)
        &&& usage_sums(self.usage, self.replies@)
        &&& self.capsule matches Some(c) ==> self.usage.capsule_token_estimate == c.token_estimate
        &&& self.branch_run matches Some(b) ==> {
            &&& b.forked && b.checked_out
            &&& self.stage != TurnStage::Finished ==> !b.merged && b.merge_error is None
            &&& self.stage == TurnStage::Finished ==> {
                &&& (b.merged <==> b.merge_error is None)
                &&& b.merge_error matches Some(e) ==> strings_view(self.warnings@).contains(
                    merge_warning(e@),
                )
            }
        }
    }

    /// What holds in the turn's current stage.
    pub open spec fn stage_inv(self) -> bool {
        &&& self.stage == TurnStage::RunningFlow ==> self.flow_id is Some && self.capsule is Some
        &&& self.stage == TurnStage::Routing ==> self.capsule is Some
        &&& (self.stage == TurnStage::Forking || self.stage == TurnStage::CheckingOut || self.stage
            == TurnStage::LoadingCapsule || self.stage == TurnStage::Routing || self.stage
            == TurnStage::RunningFlow) ==> self.usage.api_call_count == 0
        &&& self.stage == TurnStage::AwaitingModel ==> {
            &&& self.usage.api_call_count == self.step
            &&& self.step <= self.config.max_tool_iterations
            &&& self.plan is Some
            &&& self.capsule is Some
        }
        &&& self.stage == TurnStage::RunningTool ==> {
            &&& self.usage.api_call_count == self.step + 1
            &&& self.step < self.config.max_tool_iterations
            &&& self.plan is Some
            &&& self.capsule is Some
            &&& self.pending_calls@.len() == self.pending_arguments@.len()
        }
        &&& (self.stage == TurnStage::Storing || self.stage == TurnStage::Merging || self.stage
            == TurnStage::Finished) ==> {
            &&& self.capture is Some
            &&& self.capsule is Some
            &&& self.flow_id is Some || self.plan is Some
            &&& captured(self, self.final_answer@)
        }
        &&& self.stage == TurnStage::Merging ==> self.branch_run is Some
        &&& (self.stage == TurnStage::Forking || self.stage == TurnStage::CheckingOut || self.stage
            == TurnStage::LoadingCapsule || self.stage == TurnStage::Routing || self.stage
            == TurnStage::RunningFlow || self.stage == TurnStage::AwaitingModel || self.stage
            == TurnStage::RunningTool) ==> self.writebacks@.len() == 0
        &&& (self.stage == TurnStage::Storing || self.stage == TurnStage::Merging || self.stage
            == TurnStage::Finished) ==> self.flow_run is None ==> self.usage.api_call_count >= 1
        &&& self.stage == TurnStage::Storing ==> self.writebacks@ == seq![Writeback::Store]
        &&& self.stage == TurnStage::Merging ==> self.writebacks@ == seq![
            Writeback::Store,
            Writeback::Merge,
        ]
        &&& self.stage == TurnStage::Finished ==> self.writebacks@ == finished_writebacks(
            self.config.branch_per_run,
        )
    }
}

/// Whether the action fails the turn with this message.
pub open spec fn fails_with(a: TurnAction, message: Seq<char>) -> bool {
    a matches TurnAction::Fail(m) && m@ == message
}

fn text(s: &str) -> (r: String)
    ensures
        r@ == s@,
{
    string_of(&chars_of(s))
}

fn joined(a: &str, b: &str) -> (r: String)
    ensures
        r@ == a@ + b@,
{
    let mut v = chars_of(a);
    push_str(&mut v, b);
    string_of(&v)
}

fn joined3(a: &str, b: &str, c: &str) -> (r: String)
    ensures
        r@ == a@ + b@ + c@,
{
    let mut v = chars_of(a);
    push_str(&mut v, b);
    push_str(&mut v, c);
    string_of(&v)
}

fn fail(stage: &mut TurnStage, message: String) -> (a: TurnAction)
    ensures
        *final(stage) == TurnStage::Failed,
        a matches TurnAction::Fail(m) && m@ == message@,
{
    *stage = TurnStage::Failed;
    TurnAction::Fail(message)
}

fn push_all(target: &mut Vec<String>, items: &Vec<String>)
    ensures
        strings_view(final(target)@) == strings_view(old(target)@) + strings_view(items@),
{
    let mut i: usize = 0;
    while i < items.len()
        invariant
            i <= items.len(),
            strings_view(target@) == strings_view(old(target)@) + strings_view(items@.take(i as int)),
        decreases items.len() - i,
    {
        let ghost before = target@;
        let item = items[i].clone();
        assert(item@ == items@[i as int]@);
        target.push(item);
        assert(items@.take(i + 1) =~= items@.take(i as int).push(items@[i as int]));
        assert(target@ =~= before.push(item));
        assert(strings_view(target@) =~= strings_view(before).push(item@));
        assert(strings_view(items@.take(i + 1)) =~= strings_view(items@.take(i as int)).push(
            item@,
        ));
        assert(strings_view(target@) =~= strings_view(old(target)@) + strings_view(
            items@.take(i + 1),
        ));
        i = i + 1;
    }
    assert(items@.take(items.len() as int) =~= items@);
}

impl AgentTurn {
    /// Opens a turn. A turn needs an agent identity; with a branch per run it
    /// first forks the planned branch, else it asks for the capsule.
    pub fn start(request: AgentTurnRequest, config: AgentRuntimeConfig) -> (r: Result<(AgentTurn, TurnAction), String>)
        requires
            config.max_tool_iterations < usize::MAX,
        ensures
            r is Err <==> request.agent_identity is None,
            r matches Err(e) ==> e@ == "agent identity is required for the V3 hot path"@,
            r matches Ok((t, a)) ==> {
                &&& t.inv()
                &&& Some(t.identity) == request.agent_identity
                &&& t.prepared == request.prepared_turn_request
                &&& t.config == config
                &&& t.warnings@.len() == 0
                &&& t.hot_path_warnings@.len() == 0
                &&& t.tool_calls@.len() == 0
                &&& t.usage == (AgentTurnUsageEstimate {
                    capsule_token_estimate: 0,
                    api_call_count: 0,
                    input_tokens: 0,
                    output_tokens: 0,
                    cached_input_tokens: 0,
                    reasoning_output_tokens: 0,
                    total_tokens: 0,
                })
                &&& t.capsule is None
                &&& t.branch_run is None
                &&& t.flow_id is None
                &&& !t.flow_started
                &&& t.flow_run is None
                &&& t.plan is None
                &&& t.route_tools@.len() == 0
                &&& !t.cold_start_degraded
                &&& !t.used_route_fallback
                &&& !t.used_local_fallback
                &&& !t.should_bootstrap_terminal
                &&& t.allowed_tool_names@.len() == 0
                &&& t.input@.len() == 0
                &&& t.step == 0
                &&& t.pending_calls@.len() == 0
                &&& t.pending_arguments@.len() == 0
                &&& t.current_tool is None
                &&& t.current_arguments is None
                &&& t.capture is None
                &&& t.capture_result is None
                &&& t.final_answer@.len() == 0
                &&& t.replies@.len() == 0
                &&& t.writebacks@.len() == 0
                &&& if config.branch_per_run {
                    &&& t.stage == TurnStage::Forking
                    &&& a matches TurnAction::ForkBranch { branch_id, parent, description, merge_policy }
                        && branch_id@ == planned_branch_id(t.prepared, t.identity) && parent
                        == config.branch_parent && merge_policy == config.branch_merge_policy
                        && description@ == "OwnPager isolated turn for request "@ + uuid_text(
                        t.prepared.request_id,
                    )
                    &&& t.branch_id matches Some(b) && b@ == planned_branch_id(t.prepared, t.identity)
                } else {
                    &&& t.stage == TurnStage::LoadingCapsule
                    &&& a is LoadCapsule
                    &&& t.branch_id is None
                }
            },
    {
        let identity = match request.agent_identity {
            Some(identity) => identity,
            None => return Err(text("agent identity is required for the V3 hot path")),
        };
        let prepared = request.prepared_turn_request;
        let mut stage = TurnStage::LoadingCapsule;
        let mut branch_id: Option<String> = None;
        let mut action = TurnAction::LoadCapsule;
        if config.branch_per_run {
            let id = match &prepared.branch_id {
                Some(b) => b.clone(),
                None => derive_turn_branch_id(
                    identity.agent_id.as_str(),
                    request_id_text(prepared.request_id).as_str(),
                    prepared.query_text.as_str(),
                ),
            };
            let description = joined(
                "OwnPager isolated turn for request ",
                request_id_text(prepared.request_id).as_str(),
            );
            action = TurnAction::ForkBranch {
                branch_id: id.clone(),
                parent: config.branch_parent.clone(),
                description,
                merge_policy: copy_opt(&config.branch_merge_policy),
            };
            branch_id = Some(id);
            stage = TurnStage::Forking;
        }
        let turn = AgentTurn {
            config,
            prepared,
            identity,
            stage,
            registry: ToolRegistry::default(),
            warnings: Vec::new(),
            hot_path_warnings: Vec::new(),
            branch_id,
            branch_run: None,
            capsule: None,
            flow_id: None,
            flow_started: false,
            flow_run: None,
            route_tools: Vec::new(),
            cold_start_degraded: false,
            used_route_fallback: false,
            used_local_fallback: false,
            should_bootstrap_terminal: false,
            allowed_tool_names: Vec::new(),
            plan: None,
            instructions: String::new(),
            input: Vec::new(),
            step: 0,
            pending_calls: Vec::new(),
            pending_arguments: Vec::new(),
            current_call_id: String::new(),
            current_call_name: String::new(),
            current_tool: None,
            current_arguments: None,
            tool_calls: Vec::new(),
            usage: AgentTurnUsageEstimate {
                capsule_token_estimate: 0,
                api_call_count: 0,
                input_tokens: 0,
                output_tokens: 0,
                cached_input_tokens: 0,
                reasoning_output_tokens: 0,
                total_tokens: 0,
            },
            final_answer: String::new(),
            capture: None,
            capture_result: None,
            replies: Ghost(Seq::empty()),
            writebacks: Ghost(Seq::empty()),
        };
        Ok((turn, action))
    }

    /// The fork's outcome: a failed fork fails the turn; else the branch is checked out.
    pub fn on_branch_forked(&mut self, result: Result<(), String>) -> (a: TurnAction)
        requires
            old(self).inv(),
            old(self).stage == TurnStage::Forking,
        ensures
            final(self).inv(),
            *final(self) == (AgentTurn { stage: final(self).stage, ..*old(self) }),
            match result {
                Ok(_) => final(self).stage == TurnStage::CheckingOut && (a matches TurnAction::CheckoutBranch { branch_id }
                    && Some(branch_id) == old(self).branch_id),
                Err(e) => final(self).stage == TurnStage::Failed && fails_with(a, "ThinkingRoot branch fork failed: "@ + e@),
            },
    {
        match result {
            Ok(()) => {
                self.stage = TurnStage::CheckingOut;
                let id = match &self.branch_id {
                    Some(b) => b.clone(),
                    None => String::new(),
                };
                TurnAction::CheckoutBranch { branch_id: id }
            },
            Err(e) => fail(&mut self.stage, joined("ThinkingRoot branch fork failed: ", e.as_str())),
        }
    }

    /// The checkout's outcome: a failed checkout fails the turn; else the
    /// prepared request takes the branch, the branch run is recorded as forked
    /// and checked out, and the capsule is asked for.
    pub fn on_branch_checked_out(&mut self, result: Result<(), String>) -> (a: TurnAction)
        requires
            old(self).inv(),
            old(self).stage == TurnStage::CheckingOut,
        ensures
            final(self).inv(),
            match result {
                Ok(_) => {
                    &&& *final(self) == (AgentTurn {
                        stage: final(self).stage,
                        prepared: PreparedTurnRequest {
                            branch_id: old(self).branch_id,
                            ..old(self).prepared
                        },
                        branch_run: final(self).branch_run,
                        ..*old(self)
                    })
                    &&& final(self).stage == TurnStage::LoadingCapsule
                    &&& a is LoadCapsule
                    &&& final(self).prepared.branch_id == old(self).branch_id
                    &&& final(self).branch_run matches Some(b) && Some(b.branch_id) == old(self).branch_id
                        && b.parent == old(self).config.branch_parent && b.merge_policy == old(
                        self,
                    ).config.branch_merge_policy && b.forked && b.checked_out && !b.merged
                        && b.merge_error is None
                },
                Err(e) => *final(self) == (AgentTurn { stage: TurnStage::Failed, ..*old(self) })
                    && fails_with(a, "ThinkingRoot branch checkout failed: "@ + e@),
            },
    {
        match result {
            Ok(()) => {
                let id = match &self.branch_id {
                    Some(b) => b.clone(),
                    None => String::new(),
                };
                self.prepared.branch_id = Some(id.clone());
                self.branch_run = Some(
                    ThinkingRootBranchRun {
                        branch_id: id,
                        parent: self.config.branch_parent.clone(),
                        merge_policy: copy_opt(&self.config.branch_merge_policy),
                        forked: true,
                        checked_out: true,
                        merged: false,
                        merge_error: None,
                    },
                );
                self.stage = TurnStage::LoadingCapsule;
                TurnAction::LoadCapsule
            },
            Err(e) => fail(
                &mut self.stage,
                joined("ThinkingRoot branch checkout failed: ", e.as_str()),
            ),
        }
    }
}

/// `t` with the fields the model loop opens on taken from `u`: its stage,
/// warnings, hot-path warnings, plan, instructions, input, tool records and step.
pub open spec fn with_loop_of(t: AgentTurn, u: AgentTurn) -> AgentTurn {
    AgentTurn {
        stage: u.stage,
        warnings: u.warnings,
        hot_path_warnings: u.hot_path_warnings,
        plan: u.plan,
        instructions: u.instructions,
        input: u.input,
        tool_calls: u.tool_calls,
        step: u.step,
        ..t
    }
}

/// `t` having taken the capsule `c`: the capsule and its token estimate.
pub open spec fn capsule_taken(t: AgentTurn, c: ThinkingRootCapsule) -> AgentTurn {
    AgentTurn {
        usage: AgentTurnUsageEstimate { capsule_token_estimate: c.token_estimate, ..t.usage },
        capsule: Some(c),
        ..t
    }
}

/// What holds once the model loop has begun, `warnings` being the turn's
/// warnings before the plan's were added: the plan offers the allowed tools,
/// its warnings follow, the instructions come from the capsule, and the
/// input holds the user's query alone.
pub open spec fn loop_begun(t: AgentTurn, warnings: Seq<Seq<char>>) -> bool {
    &&& t.stage == TurnStage::AwaitingModel
    &&& t.step == 0
    &&& t.plan matches Some(p) && {
        &&& plan_view(p) == plan_for(
            t.registry.specs@,
            strings_view(t.allowed_tool_names@),
            t.config.allow_local_terminal,
        )
        &&& p.used_local_fallback == t.used_local_fallback
        &&& strings_view(t.hot_path_warnings@) == warnings
        &&& strings_view(t.warnings@) == warnings + strings_view(p.warnings@)
        &&& t.capsule matches Some(c) && t.instructions@ == instructions_text(
            c.system_prompt@,
            p.tool_definitions@.len() > 0,
        )
    }
    &&& t.input@.len() == 1
    &&& t.input@[0] matches TurnInput::Item(v) && is_user_message(v, t.prepared.query_text@)
}

fn route_name_list(tools: &Vec<ThinkingRootRoutedTool>) -> (r: Vec<String>)
    ensures
        strings_view(r@) == route_names(tools@),
{
    let mut r: Vec<String> = Vec::new();
    let mut i: usize = 0;
    while i < tools.len()
        invariant
            i <= tools.len(),
            strings_view(r@) == route_names(tools@.take(i as int)),
        decreases tools.len() - i,
    {
        let ghost before = r@;
        let name = tools[i].name.clone();
        r.push(name);
        assert(tools@.take(i + 1) =~= tools@.take(i as int).push(tools@[i as int]));
        assert(strings_view(r@) =~= strings_view(before).push(name@));
        assert(route_names(tools@.take(i + 1)) =~= route_names(tools@.take(i as int)).push(
            tools@[i as int].name@,
        ));
        i = i + 1;
    }
    assert(tools@.take(tools.len() as int) =~= tools@);
    r
}

impl AgentTurn {
    /// Builds the tool plan from the allowed names and opens the model loop.
    fn begin_model_loop(&mut self) -> (a: TurnAction)
        requires
            old(self).inv(),
            old(self).stage == TurnStage::Routing,
        ensures
            final(self).inv(),
            a is CallModel,
            loop_begun(*final(self), strings_view(old(self).warnings@)),
            *final(self) == with_loop_of(*old(self), *final(self)),
            final(self).allowed_tool_names == old(self).allowed_tool_names,
            final(self).used_local_fallback == old(self).used_local_fallback,
            final(self).cold_start_degraded == old(self).cold_start_degraded,
            final(self).used_route_fallback == old(self).used_route_fallback,
            final(self).route_tools == old(self).route_tools,
            final(self).capsule == old(self).capsule,
            final(self).usage == old(self).usage,
            final(self).prepared == old(self).prepared,
            final(self).identity == old(self).identity,
            final(self).config == old(self).config,
            final(self).branch_run == old(self).branch_run,
            final(self).tool_calls@.len() == 0,
    {
        self.hot_path_warnings = copy_strings(&self.warnings);
        let plan = self.registry.build_execution_plan(
            &self.allowed_tool_names,
            self.used_local_fallback,
            &self.config,
        );
        push_all(&mut self.warnings, &plan.warnings);
        let has_tools = plan.tool_definitions.len() > 0;
        let instructions = match &self.capsule {
            Some(c) => build_instructions(c, has_tools),
            None => String::new(),
        };
        self.instructions = instructions;
        self.plan = Some(plan);
        let mut input: Vec<TurnInput> = Vec::new();
        input.push(TurnInput::Item(user_message(self.prepared.query_text.as_str())));
        self.input = input;
        self.tool_calls = Vec::new();
        self.step = 0;
        self.stage = TurnStage::AwaitingModel;
        TurnAction::CallModel
    }

    /// The capsule's outcome. A failed capsule fails the turn. Otherwise its
    /// token estimate and warnings are taken; then a selected flow is
    /// started, or, when ThinkingRoot routed no tools, routing is asked
    /// for (with the terminal as the fallback where the turn bootstraps it),
    /// or the model loop begins with the routed tools.
    #[verifier::rlimit(40)]
    pub fn on_capsule(&mut self, result: Result<ThinkingRootCapsule, String>) -> (a: TurnAction)
        requires
            old(self).inv(),
            old(self).stage == TurnStage::LoadingCapsule,
        ensures
            final(self).inv(),
            final(self).prepared == old(self).prepared,
            final(self).branch_run == old(self).branch_run,
            match result {
                Err(e) => *final(self) == (AgentTurn { stage: TurnStage::Failed, ..*old(self) })
                    && fails_with(a, "ThinkingRoot capsule failed: "@ + e@),
                Ok(c) => {
                    let warned = strings_view(old(self).warnings@) + capsule_warnings(
                        c,
                        old(self).identity,
                    );
                    &&& final(self).capsule == Some(c)
                    &&& final(self).usage.capsule_token_estimate == c.token_estimate
                    &&& final(self).usage.api_call_count == 0
                    &&& match selected_flow(old(self).config, old(self).prepared.query_text@) {
                        Some(f) => {
                            &&& final(self).stage == TurnStage::RunningFlow
                            &&& a matches TurnAction::StartFlow { flow_id, inputs } && flow_id@ == f
                                && is_flow_inputs(inputs, old(self).prepared, old(self).identity, c)
                            &&& final(self).flow_id matches Some(x) && x@ == f
                            &&& strings_view(final(self).warnings@) == warned
                            &&& *final(self) == (AgentTurn {
                                stage: final(self).stage,
                                warnings: final(self).warnings,
                                flow_id: final(self).flow_id,
                                ..capsule_taken(*old(self), c)
                            })
                        },
                        None => if c.routed_tools@.len() == 0 {
                            let boot = bootstraps_terminal(
                                c,
                                old(self).config,
                                old(self).prepared.query_text@,
                            );
                            &&& final(self).stage == TurnStage::Routing
                            &&& a matches TurnAction::Route { query, branch_id, top_k } && query
                                == old(self).prepared.query_text && branch_id
                                == old(self).prepared.branch_id && top_k
                                == old(self).config.routed_tool_top_k
                            &&& final(self).should_bootstrap_terminal == boot
                            &&& final(self).used_local_fallback == boot
                            &&& final(self).cold_start_degraded == (boot && !has_grounding(c))
                            &&& strings_view(final(self).allowed_tool_names@) == if boot {
                                seq!["terminal"@]
                            } else {
                                Seq::empty()
                            }
                            &&& strings_view(final(self).warnings@) == warned
                            &&& *final(self) == (AgentTurn {
                                stage: final(self).stage,
                                warnings: final(self).warnings,
                                should_bootstrap_terminal: final(self).should_bootstrap_terminal,
                                cold_start_degraded: final(self).cold_start_degraded,
                                used_local_fallback: final(self).used_local_fallback,
                                allowed_tool_names: final(self).allowed_tool_names,
                                ..capsule_taken(*old(self), c)
                            })
                        } else {
                            &&& a is CallModel
                            &&& !final(self).used_local_fallback
                            &&& !final(self).cold_start_degraded
                            &&& final(self).allowed_tool_names@ == c.routed_tools@
                            &&& loop_begun(*final(self), warned)
                            &&& *final(self) == with_loop_of(
                                AgentTurn {
                                    should_bootstrap_terminal: false,
                                    cold_start_degraded: false,
                                    used_local_fallback: false,
                                    allowed_tool_names: final(self).allowed_tool_names,
                                    ..capsule_taken(*old(self), c)
                                },
                                *final(self),
                            )
                        },
                    }
                },
            },
    {
        let c = match result {
            Ok(c) => c,
            Err(e) => return fail(&mut self.stage, joined("ThinkingRoot capsule failed: ", e.as_str())),
        };
        self.usage.capsule_token_estimate = c.token_estimate;
        push_all(&mut self.warnings, &c.warnings);
        let prompt = trim_chars(&chars_of(c.system_prompt.as_str()), CharClass::Whitespace);
        if prompt.len() == 0 {
            let name = match &self.identity.prompt_name {
                Some(p) => p.clone(),
                None => text("<unset>"),
            };
            let w = joined3("ThinkingRoot prompt `", name.as_str(), "` compiled to an empty system frame");
            let ghost before = self.warnings@;
            self.warnings.push(w);
            assert(strings_view(self.warnings@) =~= strings_view(before).push(w@));
        }
        assert(strings_view(self.warnings@) =~= strings_view(old(self).warnings@) + capsule_warnings(
            c,
            old(self).identity,
        ));
        if let Some(f) = select_flow_id(&self.config, self.prepared.query_text.as_str()) {
            let inputs = flow_inputs(&self.prepared, &self.identity, &c);
            self.capsule = Some(c);
            self.flow_id = Some(f.clone());
            self.stage = TurnStage::RunningFlow;
            return TurnAction::StartFlow { flow_id: f, inputs };
        }
        if c.routed_tools.len() == 0 {
            let grounded = c.grounded_claims.len() > 0 || prompt.len() > 0;
            let boot = self.config.allow_local_terminal && (!grounded
                || asks_for_terminal_or_workspace_inspection(self.prepared.query_text.as_str()));
            self.should_bootstrap_terminal = boot;
            if boot {
                self.cold_start_degraded = !grounded;
                self.used_local_fallback = true;
                let mut names: Vec<String> = Vec::new();
                names.push(text("terminal"));
                assert(strings_view(names@) =~= seq!["terminal"@]);
                self.allowed_tool_names = names;
            } else {
                self.cold_start_degraded = false;
                self.used_local_fallback = false;
                self.allowed_tool_names = Vec::new();
                assert(strings_view(self.allowed_tool_names@) =~= Seq::<Seq<char>>::empty());
            }
            self.capsule = Some(c);
            self.stage = TurnStage::Routing;
            return TurnAction::Route {
                query: self.prepared.query_text.clone(),
                branch_id: copy_opt(&self.prepared.branch_id),
                top_k: self.config.routed_tool_top_k,
            };
        }
        self.allowed_tool_names = copy_strings(&c.routed_tools);
        self.should_bootstrap_terminal = false;
        self.cold_start_degraded = false;
        self.used_local_fallback = false;
        self.capsule = Some(c);
        self.stage = TurnStage::Routing;
        self.begin_model_loop()
    }

    /// The routing outcome. A non-empty ranking replaces the allowed tools
    /// and marks the route fallback as used; a failure is kept as a warning.
    /// Either way the model loop begins.
    pub fn on_route(&mut self, result: Result<Vec<ThinkingRootRoutedTool>, String>) -> (a: TurnAction)
        requires
            old(self).inv(),
            old(self).stage == TurnStage::Routing,
        ensures
            final(self).inv(),
            a is CallModel,
            final(self).used_local_fallback == old(self).used_local_fallback,
            final(self).cold_start_degraded == old(self).cold_start_degraded,
            final(self).prepared == old(self).prepared,
            match result {
                Ok(r) => if r@.len() > 0 {
                    &&& final(self).used_route_fallback
                    &&& final(self).route_tools@ == r@
                    &&& strings_view(final(self).allowed_tool_names@) == route_names(r@)
                    &&& loop_begun(*final(self), strings_view(old(self).warnings@))
                    &&& *final(self) == with_loop_of(
                        AgentTurn {
                            used_route_fallback: true,
                            allowed_tool_names: final(self).allowed_tool_names,
                            route_tools: r,
                            ..*old(self)
                        },
                        *final(self),
                    )
                } else {
                    &&& final(self).used_route_fallback == old(self).used_route_fallback
                    &&& final(self).allowed_tool_names == old(self).allowed_tool_names
                    &&& loop_begun(*final(self), strings_view(old(self).warnings@))
                    &&& *final(self) == with_loop_of(*old(self), *final(self))
                },
                Err(e) => {
                    &&& final(self).used_route_fallback == old(self).used_route_fallback
                    &&& final(self).allowed_tool_names == old(self).allowed_tool_names
                    &&& loop_begun(
                        *final(self),
                        strings_view(old(self).warnings@).push("ThinkingRoot route failed: "@ + e@),
                    )
                    &&& *final(self) == with_loop_of(*old(self), *final(self))
                },
            },
    {
        match result {
            Ok(ranked) => {
                if ranked.len() > 0 {
                    self.used_route_fallback = true;
                    self.allowed_tool_names = route_name_list(&ranked);
                    self.route_tools = ranked;
                }
            },
            Err(e) => {
                let w = joined("ThinkingRoot route failed: ", e.as_str());
                let ghost before = self.warnings@;
                self.warnings.push(w);
                assert(strings_view(self.warnings@) =~= strings_view(before).push(w@));
            },
        }
        self.begin_model_loop()
    }
}

/// The knowledge a turn captures after answering `answer`.
pub open spec fn captured(t: AgentTurn, answer: Seq<char>) -> bool {
    t.capture matches Some(c) && {
        &&& c.request_id == t.prepared.request_id
        &&& c.agent_identity == t.identity
        &&& c.summary matches Some(s) && s@ == trim_ws(answer)
        &&& strings_view(c.facts@) == sentences_of(answer)
        &&& strings_view(c.decisions@) == turn_decisions(
            t.tool_calls@.len() > 0,
            t.prepared.branch_id is Some,
        )
    }
}

/// The turn has answered `answer` and asks to store what it learned.
pub open spec fn storing(t: AgentTurn, a: TurnAction, answer: Seq<char>) -> bool {
    &&& t.stage == TurnStage::Storing
    &&& a is Store
    &&& t.writebacks@ == seq![Writeback::Store]
    &&& t.final_answer@ == answer
    &&& captured(t, answer)
}

/// The answer taken from a final model reply: its text, or a fixed sentence when the text is blank.
pub open spec fn reply_answer(output_text: Seq<char>) -> Seq<char> {
    if trim_ws(output_text).len() == 0 {
        "No answer was produced."@
    } else {
        output_text
    }
}

/// The warning given when the model still calls tools at the last allowed step.
pub open spec fn limit_warning(max_tool_iterations: nat) -> Seq<char> {
    "Agent stopped after reaching the max tool iteration limit ("@ + decimal_text(max_tool_iterations)
        + ")."@
}

/// A record the turn wrote itself for a call it did not run: a call that
/// was not routed, or one that was routed but reaches nothing.
pub open spec fn skipped_record(t: AgentTurn, r: AgentToolExecutionRecord) -> bool {
    t.plan matches Some(p) && match dispatch_of(t.registry.specs@, p, r.tool_name@) {
        ToolDispatchModel::NotRouted => !r.routed && crate::json::str_field(r.result, "error"@)
            == Some(not_routed_message(r.tool_name@)),
        ToolDispatchModel::Unmapped => r.routed && crate::json::str_field(r.result, "error"@)
            == Some(unmapped_message(r.tool_name@)),
        _ => false,
    }
}

/// What the turn asks after a batch of calls, seen from the call it stopped
/// at: the next model call once the batch is done, or one tool that the plan
/// lets the call reach, or a failure.
pub open spec fn tool_step(t: AgentTurn, a: TurnAction) -> bool {
    match a {
        TurnAction::CallModel => t.stage == TurnStage::AwaitingModel,
        TurnAction::InvokeRootFunction { function_name, input_is_member } => {
            &&& t.stage == TurnStage::RunningTool
            &&& t.plan matches Some(p) && dispatch_of(t.registry.specs@, p, t.current_call_name@)
                == ToolDispatchModel::RootFunction(function_name@)
            &&& t.current_tool == Some(CurrentTool::RootFunction(function_name))
            &&& t.current_arguments matches Some(args) && input_is_member == (json_get(
                args,
                "input"@,
            ) is Some)
        },
        TurnAction::RunTerminal(req) => {
            &&& t.stage == TurnStage::RunningTool
            &&& t.plan matches Some(p) && dispatch_of(t.registry.specs@, p, t.current_call_name@)
                == ToolDispatchModel::LocalTerminal
            &&& t.current_tool == Some(CurrentTool::Terminal)
            &&& t.current_arguments matches Some(args) && terminal_request_from(
                args,
                t.prepared,
                t.config.terminal_timeout_seconds,
                t.config.terminal_max_output_bytes,
                req,
            )
        },
        TurnAction::Fail(_) => t.stage == TurnStage::Failed,
        _ => false,
    }
}

/// After the input `before`, with `calls` tool calls recorded then, the
/// input holds one tool output for each call recorded since, in order.
pub open spec fn outputs_follow(before: Seq<TurnInput>, calls: nat, t: AgentTurn) -> bool {
    &&& t.input@.len() >= before.len()
    &&& t.tool_calls@.len() >= calls
    &&& t.input@.len() - before.len() == t.tool_calls@.len() - calls
    &&& forall|k: int|
        before.len() <= k < t.input@.len() ==> (#[trigger] t.input@[k] matches TurnInput::ToolOutput {
            record,
            ..
        } && record == k - before.len() + calls)
}

/// How far the turn got through the calls `calls`, with their parsed
/// `arguments`, given `records` tool records and `inputs` input items before
/// it started on them: the calls it skipped come first, in order, each
/// recorded under its name and arguments and answered under its call id.
/// Then it asks the model again when no call is left, or hands out the next
/// call (the rest stay pending), or fails on it: only when its arguments
/// did not parse (with their error), or when it reaches the terminal
/// without a `command`.
pub open spec fn tool_progress(
    records: nat,
    inputs: nat,
    calls: Seq<OpenAiFunctionCall>,
    arguments: Seq<Result<JsonValue, String>>,
    t: AgentTurn,
    a: TurnAction,
) -> bool {
    let n = t.tool_calls@.len() - records;
    &&& t.tool_calls@.len() >= records
    &&& n <= calls.len()
    &&& forall|j: int|
        0 <= j < n ==> (#[trigger] t.tool_calls@[records + j]).tool_name == calls[j].name
            && arguments[j] == Ok::<JsonValue, String>(t.tool_calls@[records + j].arguments)
    &&& forall|j: int|
        0 <= j < n ==> (#[trigger] t.input@[inputs + j] matches TurnInput::ToolOutput {
            call_id,
            ..
        } && call_id == calls[j].call_id)
    &&& match a {
        TurnAction::CallModel => n == calls.len(),
        TurnAction::Fail(m) => {
            &&& n < calls.len()
            &&& match arguments[n] {
                Err(e) => m@ == e@,
                Ok(v) => {
                    &&& t.plan matches Some(p) && dispatch_of(t.registry.specs@, p, calls[n].name@)
                        == ToolDispatchModel::LocalTerminal
                    &&& str_field(v, "command"@) is None
                    &&& m@ == "terminal tool call missing command"@
                },
            }
        },
        _ => {
            &&& n < calls.len()
            &&& t.current_call_name == calls[n].name
            &&& t.current_call_id == calls[n].call_id
            &&& t.current_arguments matches Some(v) && arguments[n] == Ok::<JsonValue, String>(v)
            &&& t.pending_calls@ == calls.subrange(n + 1, calls.len() as int)
            &&& t.pending_arguments@ == arguments.subrange(n + 1, arguments.len() as int)
        },
    }
}

/// The part of a turn that the tool loop leaves as it is.
pub open spec fn loop_frame(t: AgentTurn, u: AgentTurn) -> bool {
    &&& u.config == t.config
    &&& u.prepared == t.prepared
    &&& u.identity == t.identity
    &&& u.registry == t.registry
    &&& u.plan == t.plan
    &&& u.capsule == t.capsule
    &&& u.branch_run == t.branch_run
    &&& u.usage == t.usage
    &&& u.warnings == t.warnings
    &&& u.flow_id == t.flow_id
    &&& u.flow_run == t.flow_run
    &&& u.route_tools == t.route_tools
    &&& u.cold_start_degraded == t.cold_start_degraded
    &&& u.used_route_fallback == t.used_route_fallback
    &&& u.used_local_fallback == t.used_local_fallback
    &&& u.hot_path_warnings == t.hot_path_warnings
    &&& u.instructions == t.instructions
    &&& u.capture == t.capture
    &&& u.capture_result == t.capture_result
    &&& u.final_answer == t.final_answer
    &&& u.branch_id == t.branch_id
    &&& u.replies == t.replies
    &&& u.writebacks == t.writebacks
}

impl AgentTurn {
    /// Ends the answering part of the turn with `answer`: the knowledge it
    /// carries is captured and the store is asked for.
    fn finish_with(&mut self, answer: String) -> (a: TurnAction)
        requires
            old(self).base_inv(),
            old(self).capsule is Some,
            old(self).flow_id is Some || old(self).plan is Some,
            past_checkout(old(self).stage),
            old(self).writebacks@.len() == 0,
            old(self).flow_run is None ==> old(self).usage.api_call_count >= 1,
            old(self).branch_run matches Some(b) ==> !b.merged && b.merge_error is None,
        ensures
            final(self).inv(),
            storing(*final(self), a, answer@),
            final(self).tool_calls == old(self).tool_calls,
            final(self).warnings == old(self).warnings,
            final(self).usage == old(self).usage,
            final(self).branch_run == old(self).branch_run,
            final(self).prepared == old(self).prepared,
            final(self).identity == old(self).identity,
            final(self).config == old(self).config,
            final(self).flow_run == old(self).flow_run,
            final(self).capsule == old(self).capsule,
            final(self).input == old(self).input,
            final(self).step == old(self).step,
            final(self).plan == old(self).plan,
            final(self).flow_id == old(self).flow_id,
            final(self).hot_path_warnings == old(self).hot_path_warnings,
            final(self).route_tools == old(self).route_tools,
            *final(self) == (AgentTurn {
                stage: TurnStage::Storing,
                capture: final(self).capture,
                final_answer: answer,
                writebacks: final(self).writebacks,
                ..*old(self)
            }),
    {
        let capture = build_post_turn_capture(
            &self.prepared,
            &self.identity,
            answer.as_str(),
            &self.tool_calls,
        );
        self.capture = Some(capture);
        self.final_answer = answer;
        self.stage = TurnStage::Storing;
        proof {
            self.writebacks@ = seq![Writeback::Store];
        }
        TurnAction::Store
    }

    fn record(&mut self, call_id: String, record: AgentToolExecutionRecord)
        ensures
            final(self).tool_calls@ == old(self).tool_calls@.push(record),
            final(self).input@.len() == old(self).input@.len() + 1,
            forall|i: int| 0 <= i < old(self).input@.len() ==> final(self).input@[i] == old(self).input@[i],
            final(self).input@.last() matches TurnInput::ToolOutput { call_id: c, record: k } && c
                == call_id && k == old(self).tool_calls@.len(),
            final(self).stage == old(self).stage,
            final(self).step == old(self).step,
            final(self).pending_calls == old(self).pending_calls,
            final(self).pending_arguments == old(self).pending_arguments,
            final(self).current_call_name == old(self).current_call_name,
            loop_frame(*old(self), *final(self)),
    {
        let index = self.tool_calls.len();
        self.tool_calls.push(record);
        self.input.push(TurnInput::ToolOutput { call_id, record: index });
    }

    /// Works through the pending calls of a reply in order. A call whose
    /// arguments did not parse fails the turn. A call the plan does not
    /// route, or routes to nothing, is answered with an error record and
    /// skipped. The first call that reaches a Root Function or the terminal
    /// is handed to the caller. When no call is left, the model is asked again.
    fn next_tool_action(&mut self) -> (a: TurnAction)
        requires
            old(self).inv(),
            old(self).stage == TurnStage::RunningTool,
        ensures
            final(self).inv(),
            tool_step(*final(self), a),
            loop_frame(*old(self), *final(self)),
            a is CallModel ==> final(self).step == old(self).step + 1,
            !(a is CallModel) ==> final(self).step == old(self).step,
            final(self).tool_calls@.len() >= old(self).tool_calls@.len(),
            forall|i: int|
                0 <= i < old(self).tool_calls@.len() ==> final(self).tool_calls@[i]
                    == old(self).tool_calls@[i],
            forall|i: int|
                old(self).tool_calls@.len() <= i < final(self).tool_calls@.len() ==> skipped_record(
                    *final(self),
                    #[trigger] final(self).tool_calls@[i],
                ),
            forall|i: int| 0 <= i < old(self).input@.len() ==> final(self).input@[i] == old(self).input@[i],
            outputs_follow(old(self).input@, old(self).tool_calls@.len(), *final(self)),
            tool_progress(
                old(self).tool_calls@.len(),
                old(self).input@.len(),
                old(self).pending_calls@,
                old(self).pending_arguments@,
                *final(self),
                a,
            ),
    {
        let ghost calls = self.pending_calls@;
        let ghost arguments = self.pending_arguments@;
        loop
            invariant
                self.inv(),
                self.stage == TurnStage::RunningTool,
                loop_frame(*old(self), *self),
                self.step == old(self).step,
                self.tool_calls@.len() >= old(self).tool_calls@.len(),
                forall|i: int|
                    0 <= i < old(self).tool_calls@.len() ==> self.tool_calls@[i]
                        == old(self).tool_calls@[i],
                forall|i: int|
                    old(self).tool_calls@.len() <= i < self.tool_calls@.len() ==> skipped_record(
                        *self,
                        #[trigger] self.tool_calls@[i],
                    ),
                forall|i: int| 0 <= i < old(self).input@.len() ==> self.input@[i] == old(self).input@[i],
                outputs_follow(old(self).input@, old(self).tool_calls@.len(), *self),
                calls == old(self).pending_calls@,
                arguments == old(self).pending_arguments@,
                calls.len() == arguments.len(),
                self.tool_calls@.len() - old(self).tool_calls@.len() <= calls.len(),
                forall|j: int|
                    0 <= j < self.tool_calls@.len() - old(self).tool_calls@.len() ==> (
                    #[trigger] self.tool_calls@[old(self).tool_calls@.len() + j]).tool_name
                        == calls[j].name && arguments[j] == Ok::<JsonValue, String>(
                        self.tool_calls@[old(self).tool_calls@.len() + j].arguments,
                    ),
                forall|j: int|
                    0 <= j < self.tool_calls@.len() - old(self).tool_calls@.len() ==> (
                    #[trigger] self.input@[old(self).input@.len() + j] matches TurnInput::ToolOutput {
                        call_id,
                        ..
                    } && call_id == calls[j].call_id),
                self.pending_calls@ == calls.subrange(
                    self.tool_calls@.len() - old(self).tool_calls@.len(),
                    calls.len() as int,
                ),
                self.pending_arguments@ == arguments.subrange(
                    self.tool_calls@.len() - old(self).tool_calls@.len(),
                    arguments.len() as int,
                ),
            decreases self.pending_calls@.len(),
        {
            if self.pending_calls.len() == 0 {
                self.step = self.step + 1;
                self.stage = TurnStage::AwaitingModel;
                return TurnAction::CallModel;
            }
            let ghost n = self.tool_calls@.len() - old(self).tool_calls@.len();
            let ghost before_input = self.input@;
            let call = self.pending_calls.remove(0);
            let parsed = self.pending_arguments.remove(0);
            assert(call == calls[n]);
            assert(parsed == arguments[n]);
            assert(self.pending_calls@ =~= calls.subrange(n + 1, calls.len() as int));
            assert(self.pending_arguments@ =~= arguments.subrange(n + 1, arguments.len() as int));
            let args = match parsed {
                Ok(v) => v,
                Err(e) => return fail(&mut self.stage, e),
            };
            let dispatch = match &self.plan {
                Some(p) => self.registry.dispatch(p, call.name.as_str()),
                None => ToolDispatch::NotRouted,
            };
            match dispatch {
                ToolDispatch::NotRouted => {
                    let message = joined3("tool `", call.name.as_str(), "` was not routed for this turn");
                    let result = error_result(message);
                    let rec = AgentToolExecutionRecord {
                        tool_name: call.name,
                        arguments: args,
                        result,
                        routed: false,
                    };
                    let ghost before = self.tool_calls@;
                    self.record(call.call_id, rec);
                    assert(skipped_record(*self, self.tool_calls@[before.len() as int]));
                },
                ToolDispatch::Unmapped => {
                    let message = joined3(
                        "tool `",
                        call.name.as_str(),
                        "` was routed but no Root Function mapping exists",
                    );
                    let result = error_result(message);
                    let rec = AgentToolExecutionRecord {
                        tool_name: call.name,
                        arguments: args,
                        result,
                        routed: true,
                    };
                    let ghost before = self.tool_calls@;
                    self.record(call.call_id, rec);
                    assert(skipped_record(*self, self.tool_calls@[before.len() as int]));
                },
                ToolDispatch::RootFunction(f) => {
                    let input_is_member = args.get("input").is_some();
                    self.current_call_id = call.call_id;
                    self.current_call_name = call.name;
                    self.current_tool = Some(CurrentTool::RootFunction(f.clone()));
                    self.current_arguments = Some(args);
                    return TurnAction::InvokeRootFunction { function_name: f, input_is_member };
                },
                ToolDispatch::LocalTerminal => {
                    let request = build_terminal_request(
                        &args,
                        &self.prepared,
                        self.config.terminal_timeout_seconds,
                        self.config.terminal_max_output_bytes,
                    );
                    match request {
                        Ok(req) => {
                            self.current_call_id = call.call_id;
                            self.current_call_name = call.name;
                            self.current_tool = Some(CurrentTool::Terminal);
                            self.current_arguments = Some(args);
                            return TurnAction::RunTerminal(req);
                        },
                        Err(e) => return fail(&mut self.stage, e),
                    }
                },
            }
        }
    }
}

/// `items`, each as a JSON input item.
pub open spec fn as_items(items: Seq<JsonValue>) -> Seq<TurnInput> {
    items.map_values(|v: JsonValue| TurnInput::Item(v))
}

impl AgentTurn {
    /// A model reply. A failed call fails the turn with its error. Otherwise
    /// the call is counted, its token usage added and its output items kept
    /// as input. A reply without tool calls answers the turn; at the last
    /// allowed step the turn stops with the evidence gathered so far;
    /// otherwise the reply's tool calls are worked through in order.
    /// `parsed_arguments` holds the parsed argument text of each tool call.
    pub fn on_model_response(
        &mut self,
        result: Result<OpenAiResponse, String>,
        parsed_arguments: Vec<Result<JsonValue, String>>,
    ) -> (a: TurnAction)
        requires
            old(self).inv(),
            old(self).stage == TurnStage::AwaitingModel,
            result matches Ok(r) ==> usage_addable(old(self).usage, r.usage)
                && parsed_arguments@.len() == r.function_calls@.len(),
        ensures
            final(self).inv(),
            final(self).prepared == old(self).prepared,
            final(self).branch_run == old(self).branch_run,
            match result {
                Err(e) => *final(self) == (AgentTurn { stage: TurnStage::Failed, ..*old(self) })
                    && fails_with(a, e@),
                Ok(r) => {
                    &&& final(self).usage == (AgentTurnUsageEstimate {
                        api_call_count: (old(self).usage.api_call_count + 1) as usize,
                        ..usage_added(old(self).usage, r.usage)
                    })
                    &&& final(self).replies@ == old(self).replies@.push(r.usage)
                    &&& final(self).input@.len() >= old(self).input@.len() + r.output_items@.len()
                    &&& final(self).input@.subrange(
                        0,
                        (old(self).input@.len() + r.output_items@.len()) as int,
                    ) == old(self).input@ + as_items(r.output_items@)
                    &&& if r.function_calls@.len() == 0 {
                        &&& storing(*final(self), a, reply_answer(r.output_text@))
                        &&& final(self).warnings == old(self).warnings
                        &&& final(self).tool_calls == old(self).tool_calls
                        &&& *final(self) == (AgentTurn {
                            stage: TurnStage::Storing,
                            usage: final(self).usage,
                            replies: final(self).replies,
                            writebacks: final(self).writebacks,
                            input: final(self).input,
                            capture: final(self).capture,
                            final_answer: final(self).final_answer,
                            ..*old(self)
                        })
                    } else if old(self).step == old(self).config.max_tool_iterations {
                        &&& storing(
                            *final(self),
                            a,
                            iteration_limit_answer(
                                old(self).config.max_tool_iterations as nat,
                                old(self).tool_calls@,
                            ),
                        )
                        &&& strings_view(final(self).warnings@) == strings_view(
                            old(self).warnings@,
                        ).push(limit_warning(old(self).config.max_tool_iterations as nat))
                        &&& final(self).tool_calls == old(self).tool_calls
                        &&& *final(self) == (AgentTurn {
                            stage: TurnStage::Storing,
                            usage: final(self).usage,
                            replies: final(self).replies,
                            writebacks: final(self).writebacks,
                            input: final(self).input,
                            warnings: final(self).warnings,
                            capture: final(self).capture,
                            final_answer: final(self).final_answer,
                            ..*old(self)
                        })
                    } else {
                        &&& tool_step(*final(self), a)
                        &&& final(self).warnings == old(self).warnings
                        &&& loop_frame(
                            AgentTurn {
                                usage: final(self).usage,
                                replies: final(self).replies,
                                ..*old(self)
                            },
                            *final(self),
                        )
                        &&& a is CallModel ==> final(self).step == old(self).step + 1
                        &&& !(a is CallModel) ==> final(self).step == old(self).step
                        &&& forall|i: int|
                            0 <= i < old(self).tool_calls@.len() ==> final(self).tool_calls@[i]
                                == old(self).tool_calls@[i]
                        &&& forall|i: int|
                            old(self).tool_calls@.len() <= i < final(self).tool_calls@.len()
                                ==> skipped_record(*final(self), #[trigger] final(self).tool_calls@[i])
                        &&& outputs_follow(
                            old(self).input@ + as_items(r.output_items@),
                            old(self).tool_calls@.len(),
                            *final(self),
                        )
                        &&& tool_progress(
                            old(self).tool_calls@.len(),
                            old(self).input@.len() + r.output_items@.len(),
                            r.function_calls@,
                            parsed_arguments@,
                            *final(self),
                            a,
                        )
                    }
                },
            },
    {
        let r = match result {
            Ok(r) => r,
            Err(e) => return fail(&mut self.stage, e),
        };
        let OpenAiResponse { output_text, output_items, function_calls, usage } = r;
        self.usage.api_call_count = self.usage.api_call_count + 1;
        merge_openai_usage(&mut self.usage, usage.as_ref());
        let ghost replies_before = self.replies@;
        proof {
            self.replies@ = self.replies@.push(usage);
            assert(self.replies@.drop_last() =~= replies_before);
        }
        let ghost input_before = self.input@;
        let ghost mid = *self;
        let ghost items = output_items@;
        let n_items = output_items.len();
        let mut items_left = output_items;
        let mut k: usize = 0;
        while items_left.len() > 0
            invariant
                k + items_left@.len() == items.len(),
                items.len() == n_items,
                items_left@ == items.subrange(k as int, items.len() as int),
                self.input@ == input_before + as_items(items.take(k as int)),
                self.base_inv(),
                self.stage == old(self).stage,
                self.step == old(self).step,
                self.tool_calls == old(self).tool_calls,
                loop_frame(mid, *self),
                *self == (AgentTurn { input: self.input, ..mid }),
                mid == (AgentTurn { usage: mid.usage, replies: mid.replies, ..*old(self) }),
                mid.replies@ == old(self).replies@.push(usage),
                mid.usage == (AgentTurnUsageEstimate {
                    api_call_count: (old(self).usage.api_call_count + 1) as usize,
                    ..usage_added(old(self).usage, usage)
                }),
            decreases items_left@.len(),
        {
            let item = items_left.remove(0);
            self.input.push(TurnInput::Item(item));
            assert(as_items(items.take(k + 1)) =~= as_items(items.take(k as int)).push(
                TurnInput::Item(item),
            ));
            assert(items_left@ =~= items.subrange(k + 1, items.len() as int));
            k = k + 1;
        }
        assert(items.take(k as int) =~= items);
        assert(self.input@.subrange(0, (input_before.len() + items.len()) as int) =~= self.input@);
        if function_calls.len() == 0 {
            let trimmed = trim_chars(&chars_of(output_text.as_str()), CharClass::Whitespace);
            let answer = if trimmed.len() == 0 {
                text("No answer was produced.")
            } else {
                output_text
            };
            return self.finish_with(answer);
        }
        if self.step == self.config.max_tool_iterations {
            let mut w = chars_of("Agent stopped after reaching the max tool iteration limit (");
            w = concat_chars(&w, &decimal_chars(self.config.max_tool_iterations as u64));
            push_str(&mut w, ").");
            let w = string_of(&w);
            let ghost before = self.warnings@;
            self.warnings.push(w);
            assert(strings_view(self.warnings@) =~= strings_view(before).push(w@));
            let answer = build_tool_iteration_limit_answer(
                self.config.max_tool_iterations,
                &self.tool_calls,
            );
            return self.finish_with(answer);
        }
        self.pending_calls = function_calls;
        self.pending_arguments = parsed_arguments;
        self.stage = TurnStage::RunningTool;
        let a = self.next_tool_action();
        assert(self.input@.subrange(0, (input_before.len() + items.len()) as int) =~= input_before
            + as_items(items));
        a
    }
}

/// The error a failed tool reports: a Root Function's error names the function.
pub open spec fn tool_failure(tool: CurrentTool, error: Seq<char>) -> Seq<char> {
    match tool {
        CurrentTool::RootFunction(f) => "ThinkingRoot Root Function `"@ + f@ + "` failed: "@ + error,
        CurrentTool::Terminal => error,
    }
}

/// The name a tool's record carries: the Root Function's name, or `terminal`.
pub open spec fn tool_record_name(tool: CurrentTool) -> Seq<char> {
    match tool {
        CurrentTool::RootFunction(f) => f@,
        CurrentTool::Terminal => "terminal"@,
    }
}

/// The error of a flow run that ended with a failure status.
pub open spec fn flow_failure(flow_id: Seq<char>, status: Seq<char>) -> Seq<char> {
    "ThinkingRoot flow `"@ + flow_id + "` failed with status `"@ + status + "`"@
}

/// The error of a flow snapshot without a run id.
pub open spec fn flow_without_run_id(flow_id: Seq<char>) -> Seq<char> {
    "ThinkingRoot flow `"@ + flow_id + "` did not return a flow_run_id"@
}

/// The error of a flow still running when its time is up.
pub open spec fn flow_timeout(flow_id: Seq<char>, seconds: nat) -> Seq<char> {
    "ThinkingRoot flow `"@ + flow_id + "` timed out after "@ + decimal_text(seconds) + " seconds"@
}

impl AgentTurn {
    /// The result of the tool the turn handed out. A failure fails the turn;
    /// a result is recorded as a routed call and reported to the model, and
    /// the remaining calls of the reply are worked through.
    pub fn on_tool_result(&mut self, result: Result<JsonValue, String>) -> (a: TurnAction)
        requires
            old(self).inv(),
            old(self).stage == TurnStage::RunningTool,
            old(self).current_tool is Some,
            old(self).current_arguments is Some,
        ensures
            final(self).inv(),
            loop_frame(*old(self), *final(self)),
            match result {
                Err(e) => *final(self) == (AgentTurn {
                    stage: TurnStage::Failed,
                    current_tool: None,
                    current_arguments: None,
                    ..*old(self)
                }) && fails_with(a, tool_failure(old(self).current_tool->0, e@)),
                Ok(v) => {
                    &&& tool_step(*final(self), a)
                    &&& final(self).tool_calls@.len() > old(self).tool_calls@.len()
                    &&& forall|i: int|
                        0 <= i < old(self).tool_calls@.len() ==> final(self).tool_calls@[i]
                            == old(self).tool_calls@[i]
                    &&& final(self).tool_calls@[old(self).tool_calls@.len() as int] matches rec
                        && rec.result == v && rec.routed && rec.tool_name@ == tool_record_name(
                        old(self).current_tool->0,
                    ) && Some(rec.arguments) == old(self).current_arguments
                    &&& forall|i: int|
                        old(self).tool_calls@.len() < i < final(self).tool_calls@.len()
                            ==> skipped_record(*final(self), #[trigger] final(self).tool_calls@[i])
                    &&& final(self).input@.len() > old(self).input@.len()
                    &&& final(self).input@[old(self).input@.len() as int] matches TurnInput::ToolOutput {
                        call_id,
                        record,
                    } && call_id == old(self).current_call_id && record == old(self).tool_calls@.len()
                    &&& outputs_follow(
                        final(self).input@.take((old(self).input@.len() + 1) as int),
                        old(self).tool_calls@.len() + 1,
                        *final(self),
                    )
                    &&& tool_progress(
                        old(self).tool_calls@.len() + 1,
                        old(self).input@.len() + 1,
                        old(self).pending_calls@,
                        old(self).pending_arguments@,
                        *final(self),
                        a,
                    )
                },
            },
    {
        let tool = match self.current_tool.take() {
            Some(t) => t,
            None => CurrentTool::Terminal,
        };
        let arguments = match self.current_arguments.take() {
            Some(v) => v,
            None => JsonValue::Null,
        };
        match result {
            Err(e) => {
                let message = match &tool {
                    CurrentTool::RootFunction(f) => {
                        let mut m = chars_of("ThinkingRoot Root Function `");
                        push_str(&mut m, f.as_str());
                        push_str(&mut m, "` failed: ");
                        push_str(&mut m, e.as_str());
                        string_of(&m)
                    },
                    CurrentTool::Terminal => e,
                };
                fail(&mut self.stage, message)
            },
            Ok(v) => {
                let name = match &tool {
                    CurrentTool::RootFunction(f) => f.clone(),
                    CurrentTool::Terminal => text("terminal"),
                };
                let call_id = self.current_call_id.clone();
                let rec = AgentToolExecutionRecord {
                    tool_name: name,
                    arguments,
                    result: v,
                    routed: true,
                };
                self.record(call_id, rec);
                let ghost mid = *self;
                let a = self.next_tool_action();
                assert(self.input@[old(self).input@.len() as int] == mid.input@[old(self).input@.len() as int]);
                assert(self.tool_calls@[old(self).tool_calls@.len() as int] == mid.tool_calls@[old(self).tool_calls@.len() as int]);
                a
            },
        }
    }

    /// A snapshot of the flow run, or the failure to get one; the first
    /// comes from starting the flow, the others from polling it.
    /// `deadline_passed` tells whether the flow's time is up, and
    /// `output_json_text` is the JSON text of the snapshot's output. A
    /// finished flow answers the turn; a failed one, one without a run id, or
    /// one past its deadline fails it; else the run is polled again.
    pub fn on_flow_snapshot(
        &mut self,
        result: Result<ThinkingRootFlowRun, String>,
        deadline_passed: bool,
        output_json_text: String,
    ) -> (a: TurnAction)
        requires
            old(self).inv(),
            old(self).stage == TurnStage::RunningFlow,
        ensures
            final(self).inv(),
            final(self).warnings == old(self).warnings,
            final(self).usage == old(self).usage,
            final(self).tool_calls == old(self).tool_calls,
            match result {
                Err(e) => *final(self) == (AgentTurn { stage: TurnStage::Failed, ..*old(self) })
                    && fails_with(
                    a,
                    if old(self).flow_started {
                        "ThinkingRoot flow poll failed: "@ + e@
                    } else {
                        "ThinkingRoot flow start failed: "@ + e@
                    },
                ),
                Ok(run) => {
                    let f = old(self).flow_id->0@;
                    let status = lower_seq(run.status@);
                    if flow_success_word(status) {
                        &&& storing(*final(self), a, flow_answer(run, output_json_text@))
                        &&& final(self).flow_run == Some(run)
                        &&& *final(self) == (AgentTurn {
                            stage: TurnStage::Storing,
                            flow_started: true,
                            flow_run: Some(run),
                            writebacks: final(self).writebacks,
                            capture: final(self).capture,
                            final_answer: final(self).final_answer,
                            ..*old(self)
                        })
                    } else if flow_failure_word(status) {
                        *final(self) == (AgentTurn {
                            stage: TurnStage::Failed,
                            flow_started: true,
                            ..*old(self)
                        }) && fails_with(a, flow_failure(f, run.status@))
                    } else if trim_ws(run.flow_run_id@).len() == 0 {
                        *final(self) == (AgentTurn {
                            stage: TurnStage::Failed,
                            flow_started: true,
                            ..*old(self)
                        }) && fails_with(a, flow_without_run_id(f))
                    } else if deadline_passed {
                        *final(self) == (AgentTurn {
                            stage: TurnStage::Failed,
                            flow_started: true,
                            ..*old(self)
                        }) && fails_with(a, flow_timeout(f, old(self).config.flow_timeout_seconds as nat))
                    } else {
                        &&& *final(self) == (AgentTurn {
                            stage: TurnStage::RunningFlow,
                            flow_started: true,
                            ..*old(self)
                        })
                        &&& a matches TurnAction::PollFlow { flow_id, flow_run_id, wait_ms }
                            && flow_id@ == f && flow_run_id == run.flow_run_id && wait_ms
                            == old(self).config.flow_poll_interval_ms
                    }
                },
            },
    {
        let run = match result {
            Ok(run) => run,
            Err(e) => {
                let prefix = if self.flow_started {
                    "ThinkingRoot flow poll failed: "
                } else {
                    "ThinkingRoot flow start failed: "
                };
                return fail(&mut self.stage, joined(prefix, e.as_str()));
            },
        };
        self.flow_started = true;
        let flow_id = match &self.flow_id {
            Some(f) => f.clone(),
            None => String::new(),
        };
        let status = string_of(&lower_chars(&chars_of(run.status.as_str())));
        if is_flow_success_status(status.as_str()) {
            let answer = flow_final_answer(&run, output_json_text.as_str());
            self.flow_run = Some(run);
            return self.finish_with(answer);
        }
        if is_flow_failure_status(status.as_str()) {
            let mut m = chars_of("ThinkingRoot flow `");
            push_str(&mut m, flow_id.as_str());
            push_str(&mut m, "` failed with status `");
            push_str(&mut m, run.status.as_str());
            push_str(&mut m, "`");
            return fail(&mut self.stage, string_of(&m));
        }
        let run_id = trim_chars(&chars_of(run.flow_run_id.as_str()), CharClass::Whitespace);
        if run_id.len() == 0 {
            return fail(
                &mut self.stage,
                joined3("ThinkingRoot flow `", flow_id.as_str(), "` did not return a flow_run_id"),
            );
        }
        if deadline_passed {
            let mut m = chars_of("ThinkingRoot flow `");
            push_str(&mut m, flow_id.as_str());
            push_str(&mut m, "` timed out after ");
            let m = concat_chars(&m, &decimal_chars(self.config.flow_timeout_seconds));
            let mut m = m;
            push_str(&mut m, " seconds");
            return fail(&mut self.stage, string_of(&m));
        }
        TurnAction::PollFlow {
            flow_id,
            flow_run_id: run.flow_run_id,
            wait_ms: self.config.flow_poll_interval_ms,
        }
    }

    /// The store's outcome. A failed store does not fail the turn: it is
    /// kept as a warning. A turn with a branch then merges it; else it is over.
    pub fn on_stored(&mut self, result: Result<ThinkingRootCaptureResult, String>) -> (a: TurnAction)
        requires
            old(self).inv(),
            old(self).stage == TurnStage::Storing,
        ensures
            final(self).inv(),
            !(a is Fail),
            *final(self) == (AgentTurn {
                stage: final(self).stage,
                capture_result: final(self).capture_result,
                warnings: final(self).warnings,
                writebacks: final(self).writebacks,
                ..*old(self)
            }),
            final(self).writebacks@ == if old(self).config.branch_per_run {
                old(self).writebacks@.push(Writeback::Merge)
            } else {
                old(self).writebacks@
            },
            final(self).final_answer == old(self).final_answer,
            final(self).capture == old(self).capture,
            final(self).usage == old(self).usage,
            final(self).branch_run == old(self).branch_run,
            match result {
                Ok(r) => final(self).capture_result == Some(r) && final(self).warnings == old(
                    self,
                ).warnings,
                Err(e) => final(self).capture_result is None && strings_view(final(self).warnings@)
                    == strings_view(old(self).warnings@).push(
                    "ThinkingRoot scoped store failed: "@ + e@,
                ),
            },
            (a is MergeBranch) == old(self).config.branch_per_run,
            match a {
                TurnAction::MergeBranch { branch_id, merge_policy } => {
                    &&& final(self).stage == TurnStage::Merging
                    &&& old(self).branch_run matches Some(b) && branch_id == b.branch_id
                        && merge_policy == b.merge_policy
                },
                _ => final(self).stage == TurnStage::Finished && a is Finish,
            },
    {
        match result {
            Ok(r) => {
                self.capture_result = Some(r);
            },
            Err(e) => {
                self.capture_result = None;
                let w = joined("ThinkingRoot scoped store failed: ", e.as_str());
                let ghost before = self.warnings@;
                self.warnings.push(w);
                assert(strings_view(self.warnings@) =~= strings_view(before).push(w@));
            },
        }
        match &self.branch_run {
            Some(b) => {
                let branch_id = b.branch_id.clone();
                let merge_policy = copy_opt(&b.merge_policy);
                self.stage = TurnStage::Merging;
                proof {
                    self.writebacks@ = self.writebacks@.push(Writeback::Merge);
                    assert(self.writebacks@ =~= seq![Writeback::Store, Writeback::Merge]);
                }
                TurnAction::MergeBranch { branch_id, merge_policy }
            },
            None => {
                self.stage = TurnStage::Finished;
                TurnAction::Finish
            },
        }
    }

    /// The merge's outcome: the branch run is marked merged, or keeps the
    /// error, which is also a warning. The turn is then over.
    pub fn on_merged(&mut self, result: Result<(), String>) -> (a: TurnAction)
        requires
            old(self).inv(),
            old(self).stage == TurnStage::Merging,
        ensures
            final(self).inv(),
            a is Finish,
            final(self).stage == TurnStage::Finished,
            *final(self) == (AgentTurn {
                stage: TurnStage::Finished,
                branch_run: final(self).branch_run,
                warnings: final(self).warnings,
                ..*old(self)
            }),
            final(self).capture_result == old(self).capture_result,
            final(self).final_answer == old(self).final_answer,
            final(self).branch_run matches Some(b) && old(self).branch_run matches Some(ob) && {
                &&& b.branch_id == ob.branch_id
                &&& b.parent == ob.parent
                &&& b.merge_policy == ob.merge_policy
                &&& b.forked == ob.forked
                &&& b.checked_out == ob.checked_out
                &&& match result {
                    Ok(_) => b.merged && b.merge_error == ob.merge_error,
                    Err(e) => b.merged == ob.merged && b.merge_error == Some(e),
                }
            },
            match result {
                Ok(_) => final(self).warnings == old(self).warnings,
                Err(e) => strings_view(final(self).warnings@) == strings_view(
                    old(self).warnings@,
                ).push("ThinkingRoot branch merge failed: "@ + e@),
            },
    {
        let mut branch = match self.branch_run.take() {
            Some(b) => b,
            None => ThinkingRootBranchRun {
                branch_id: String::new(),
                parent: String::new(),
                merge_policy: None,
                forked: false,
                checked_out: false,
                merged: false,
                merge_error: None,
            },
        };
        match result {
            Ok(()) => {
                branch.merged = true;
            },
            Err(e) => {
                let w = joined("ThinkingRoot branch merge failed: ", e.as_str());
                branch.merge_error = Some(e);
                let ghost before = self.warnings@;
                self.warnings.push(w);
                assert(strings_view(self.warnings@) =~= strings_view(before).push(w@));
                assert(strings_view(self.warnings@)[strings_view(self.warnings@).len() - 1] == w@);
            },
        }
        self.branch_run = Some(branch);
        assert(self.writebacks@ =~= finished_writebacks(true));
        self.stage = TurnStage::Finished;
        TurnAction::Finish
    }
}

impl AgentTurn {
    /// The result of a finished turn. A turn that ran a flow reports its
    /// flow run, no tools, and all of its warnings in the hot path; any
    /// other turn reports its plan and the warnings it had before the plan.
    pub fn into_result(self) -> (r: AgentTurnResult)
        requires
            self.inv(),
            self.stage == TurnStage::Finished,
        ensures
            r.request_id == self.prepared.request_id,
            r.final_answer == self.final_answer,
            r.agent_identity == self.identity,
            r.thinkingroot_hot_path.agent_identity == self.identity,
            Some(r.thinkingroot_hot_path.capsule) == self.capsule,
            r.thinkingroot_hot_path.branch_run == self.branch_run,
            r.tool_calls == self.tool_calls,
            r.flow_run == self.flow_run,
            Some(r.captured_knowledge) == self.capture,
            r.capture_result == self.capture_result,
            r.usage_estimate == self.usage,
            r.warnings == self.warnings,
            if self.flow_id is Some {
                &&& r.thinkingroot_hot_path.route_tools@.len() == 0
                &&& !r.thinkingroot_hot_path.cold_start_degraded
                &&& !r.thinkingroot_hot_path.used_route_fallback
                &&& r.thinkingroot_hot_path.warnings@ == self.warnings@
                &&& r.execution_plan.available_tool_names@.len() == 0
                &&& !r.execution_plan.used_local_fallback
            } else {
                &&& r.thinkingroot_hot_path.route_tools == self.route_tools
                &&& r.thinkingroot_hot_path.cold_start_degraded == self.cold_start_degraded
                &&& r.thinkingroot_hot_path.used_route_fallback == self.used_route_fallback
                &&& r.thinkingroot_hot_path.warnings == self.hot_path_warnings
                &&& self.plan matches Some(p) && r.execution_plan.available_tool_names@
                    == p.available_tool_names@ && r.execution_plan.used_local_fallback
                    == p.used_local_fallback
            },
    {
        let via_flow = self.flow_id.is_some();
        let AgentTurn {
            prepared,
            identity,
            warnings,
            hot_path_warnings,
            branch_run,
            capsule,
            flow_run,
            route_tools,
            cold_start_degraded,
            used_route_fallback,
            plan,
            tool_calls,
            usage,
            final_answer,
            capture,
            capture_result,
            ..
        } = self;
        let capsule = capsule.unwrap();
        let captured_knowledge = capture.unwrap();
        let (hot_path, execution_plan) = if via_flow {
            (
                ThinkingRootHotPathResult {
                    agent_identity: identity.duplicate(),
                    capsule,
                    route_tools: Vec::new(),
                    cold_start_degraded: false,
                    used_route_fallback: false,
                    branch_run,
                    warnings: copy_strings(&warnings),
                },
                AgentTurnExecutionPlan { available_tool_names: Vec::new(), used_local_fallback: false },
            )
        } else {
            let summary = match &plan {
                Some(p) => p.summary(),
                None => AgentTurnExecutionPlan {
                    available_tool_names: Vec::new(),
                    used_local_fallback: false,
                },
            };
            (
                ThinkingRootHotPathResult {
                    agent_identity: identity.duplicate(),
                    capsule,
                    route_tools,
                    cold_start_degraded,
                    used_route_fallback,
                    branch_run,
                    warnings: hot_path_warnings,
                },
                summary,
            )
        };
        AgentTurnResult {
            request_id: prepared.request_id,
            final_answer,
            agent_identity: identity,
            thinkingroot_hot_path: hot_path,
            execution_plan,
            tool_calls,
            flow_run,
            captured_knowledge,
            capture_result,
            usage_estimate: usage,
            warnings,
        }
    }
}

} // verus!
