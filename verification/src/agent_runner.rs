//! The pieces of an agent turn: flow selection, tool routing, tool
//! execution plans, answers and the knowledge captured after a turn.
use vstd::prelude::*;

use crate::config::{AgentRuntimeConfig, FlowMode};
use crate::json::{json_get, json_str, str_field, u64_field, JsonValue};
use crate::external::request_id_text;
use crate::numbers::{decimal_chars, decimal_text, uuid_text};
use crate::openai_responses::{OpenAiTokenUsage, OpenAiToolDefinition};
use crate::text::{
    chars_of, concat_chars, contains_seq, contains_str, join_chars, join_with, lower_chars,
    lower_seq, push_str, same_text, string_of, take_at_most, take_chars, trim_chars, trim_ws,
    CharClass,
};
use crate::json::{json_array, member, JsonMember};
use crate::session::or_default;
use crate::text::{
    collapse, collapse_chars, ends_with_char, hex_digits, hex_digits_of, map_chars,
    map_seq, split_chars, split_class, starts_with_seq, starts_with_str, trim_class, utf8_len,
    utf8_len_at_least, CharMap,
};
use crate::types::{
    copy_opt, AgentIdentity, AgentToolExecutionRecord, AgentTurnExecutionPlan,
    AgentTurnUsageEstimate, PostTurnKnowledgeCapture, PreparedTurnRequest, SourceMetadata,
    SourceType, TerminalCommandRequest, ThinkingRootCapsule, ThinkingRootClaim, ThinkingRootFlowRun,
};

verus! {

// ---------------------------------------------------------------------------
// Usage accounting
// ---------------------------------------------------------------------------

/// Whether adding `usage` to `t` stays within `usize`.
pub open spec fn usage_addable(t: AgentTurnUsageEstimate, usage: Option<OpenAiTokenUsage>) -> bool {
    usage matches Some(u) ==> {
        &&& t.input_tokens + u.input_tokens <= usize::MAX
        &&& t.output_tokens + u.output_tokens <= usize::MAX
        &&& t.cached_input_tokens + u.cached_input_tokens <= usize::MAX
        &&& t.reasoning_output_tokens + u.reasoning_output_tokens <= usize::MAX
        &&& t.total_tokens + u.total_tokens <= usize::MAX
    }
}

/// `t` with the counts of `usage` added.
pub open spec fn usage_added(t: AgentTurnUsageEstimate, usage: Option<OpenAiTokenUsage>) -> AgentTurnUsageEstimate {
    match usage {
        Some(u) => AgentTurnUsageEstimate {
            input_tokens: (t.input_tokens + u.input_tokens) as usize,
            output_tokens: (t.output_tokens + u.output_tokens) as usize,
            cached_input_tokens: (t.cached_input_tokens + u.cached_input_tokens) as usize,
            reasoning_output_tokens: (t.reasoning_output_tokens + u.reasoning_output_tokens) as usize,
            total_tokens: (t.total_tokens + u.total_tokens) as usize,
            ..t
        },
        None => t,
    }
}

/// Adds the token counts of one model reply to the turn's totals.
pub fn merge_openai_usage(target: &mut AgentTurnUsageEstimate, usage: Option<&OpenAiTokenUsage>)
    requires
        usage_addable(*old(target), match usage { Some(u) => Some(*u), None => None }),
    ensures
        *final(target) == usage_added(*old(target), match usage { Some(u) => Some(*u), None => None }),
{
    if let Some(usage) = usage {
        target.input_tokens = target.input_tokens + usage.input_tokens;
        target.output_tokens = target.output_tokens + usage.output_tokens;
        target.cached_input_tokens = target.cached_input_tokens + usage.cached_input_tokens;
        target.reasoning_output_tokens = target.reasoning_output_tokens
            + usage.reasoning_output_tokens;
        target.total_tokens = target.total_tokens + usage.total_tokens;
    }
}

// ---------------------------------------------------------------------------
// Instructions and flow selection
// ---------------------------------------------------------------------------

pub open spec fn tool_discipline() -> Seq<char> {
    "\n\nTool discipline: use the terminal only for necessary evidence. Prefer one combined read-only command over many small commands. After gathering enough evidence, stop calling tools and produce the final answer."@
}

/// The capsule's system prompt, trimmed, followed by the tool discipline note when tools are offered.
pub open spec fn instructions_text(system_prompt: Seq<char>, has_tools: bool) -> Seq<char> {
    if has_tools {
        trim_ws(system_prompt) + tool_discipline()
    } else {
        trim_ws(system_prompt)
    }
}

pub fn build_instructions(capsule: &ThinkingRootCapsule, has_tools: bool) -> (r: String)
    ensures
        r@ == instructions_text(capsule.system_prompt@, has_tools),
{
    let mut text = trim_chars(&chars_of(capsule.system_prompt.as_str()), CharClass::Whitespace);
    if has_tools {
        push_str(
            &mut text,
            "\n\nTool discipline: use the terminal only for necessary evidence. Prefer one combined read-only command over many small commands. After gathering enough evidence, stop calling tools and produce the final answer.",
        );
    }
    string_of(&text)
}

pub open spec fn bool_count(b: bool) -> nat {
    if b {
        1
    } else {
        0
    }
}

/// How many task words (`research`, `competitor`, `report`, `email`, `write`,
/// `summarize`, `compare`, `plan`, `design`, `implement`, `analyze`) occur in `n`.
pub open spec fn task_marker_count(n: Seq<char>) -> nat {
    bool_count(contains_seq(n, "research"@)) + bool_count(contains_seq(n, "competitor"@))
        + bool_count(contains_seq(n, "report"@)) + bool_count(contains_seq(n, "email"@))
        + bool_count(contains_seq(n, "write"@)) + bool_count(contains_seq(n, "summarize"@))
        + bool_count(contains_seq(n, "compare"@)) + bool_count(contains_seq(n, "plan"@))
        + bool_count(contains_seq(n, "design"@)) + bool_count(contains_seq(n, "implement"@))
        + bool_count(contains_seq(n, "analyze"@))
}

/// Whether `n` names an explicit sequence of steps.
pub open spec fn explicit_sequence(n: Seq<char>) -> bool {
    ||| contains_seq(n, " then "@)
    ||| contains_seq(n, " after that "@)
    ||| contains_seq(n, " finally "@)
    ||| contains_seq(n, "step by step"@)
}

/// Whether a query reads as a multi-step task: it names an explicit sequence
/// or at least two task words, ignoring ASCII case.
pub open spec fn complex_task(query: Seq<char>) -> bool {
    explicit_sequence(lower_seq(query)) || task_marker_count(lower_seq(query)) >= 2
}

fn count_if(b: bool) -> (n: usize)
    ensures
        n == bool_count(b),
{
    if b {
        1
    } else {
        0
    }
}

pub open spec fn first_markers(n: Seq<char>) -> nat {
    bool_count(contains_seq(n, "research"@)) + bool_count(contains_seq(n, "competitor"@))
        + bool_count(contains_seq(n, "report"@)) + bool_count(contains_seq(n, "email"@))
        + bool_count(contains_seq(n, "write"@)) + bool_count(contains_seq(n, "summarize"@))
}

pub open spec fn last_markers(n: Seq<char>) -> nat {
    bool_count(contains_seq(n, "compare"@)) + bool_count(contains_seq(n, "plan"@))
        + bool_count(contains_seq(n, "design"@)) + bool_count(contains_seq(n, "implement"@))
        + bool_count(contains_seq(n, "analyze"@))
}

fn count_first_markers(n: &Vec<char>) -> (c: usize)
    ensures
        c == first_markers(n@),
        c <= 6,
{
    let c1 = count_if(contains_str(n, "research"));
    let c2 = count_if(contains_str(n, "competitor"));
    let c3 = count_if(contains_str(n, "report"));
    let c4 = count_if(contains_str(n, "email"));
    let c5 = count_if(contains_str(n, "write"));
    let c6 = count_if(contains_str(n, "summarize"));
    c1 + c2 + c3 + c4 + c5 + c6
}

fn count_last_markers(n: &Vec<char>) -> (c: usize)
    ensures
        c == last_markers(n@),
        c <= 5,
{
    let c7 = count_if(contains_str(n, "compare"));
    let c8 = count_if(contains_str(n, "plan"));
    let c9 = count_if(contains_str(n, "design"));
    let c10 = count_if(contains_str(n, "implement"));
    let c11 = count_if(contains_str(n, "analyze"));
    c7 + c8 + c9 + c10 + c11
}

fn marker_count(n: &Vec<char>) -> (c: usize)
    ensures
        c == task_marker_count(n@),
{
    let a = count_first_markers(n);
    let b = count_last_markers(n);
    assert(task_marker_count(n@) == first_markers(n@) + last_markers(n@));
    a + b
}

fn has_explicit_sequence(n: &Vec<char>) -> (b: bool)
    ensures
        b == explicit_sequence(n@),
{
    contains_str(n, " then ") || contains_str(n, " after that ") || contains_str(n, " finally ")
        || contains_str(n, "step by step")
}

pub fn looks_like_complex_task(query_text: &str) -> (b: bool)
    ensures
        b == complex_task(query_text@),
{
    let n = lower_chars(&chars_of(query_text));
    if has_explicit_sequence(&n) {
        return true;
    }
    marker_count(&n) >= 2
}

/// Whether a query asks to look at the local machine: it names an execution
/// word and a local target, ignoring ASCII case.
pub open spec fn asks_for_inspection(query: Seq<char>) -> bool {
    let n = lower_seq(query);
    let execution = contains_seq(n, "terminal"@) || contains_seq(n, "tooling"@) || contains_seq(
        n,
        "command"@,
    ) || contains_seq(n, "inspect"@) || contains_seq(n, "list"@) || contains_seq(
        n,
        "current directory"@,
    ) || contains_seq(n, "workspace"@) || contains_seq(n, "files"@) || contains_seq(n, "folders"@)
        || contains_seq(n, "package"@) || contains_seq(n, "config"@);
    let target = contains_seq(n, "/users/"@) || contains_seq(n, "repo"@) || contains_seq(
        n,
        "repository"@,
    ) || contains_seq(n, "project"@) || contains_seq(n, "directory"@) || contains_seq(
        n,
        "folder"@,
    ) || contains_seq(n, "workspace"@);
    execution && target
}

pub fn asks_for_terminal_or_workspace_inspection(query_text: &str) -> (b: bool)
    ensures
        b == asks_for_inspection(query_text@),
{
    let n = lower_chars(&chars_of(query_text));
    let execution = contains_str(&n, "terminal") || contains_str(&n, "tooling") || contains_str(
        &n,
        "command",
    ) || contains_str(&n, "inspect") || contains_str(&n, "list") || contains_str(
        &n,
        "current directory",
    ) || contains_str(&n, "workspace") || contains_str(&n, "files") || contains_str(&n, "folders")
        || contains_str(&n, "package") || contains_str(&n, "config");
    let target = contains_str(&n, "/users/") || contains_str(&n, "repo") || contains_str(
        &n,
        "repository",
    ) || contains_str(&n, "project") || contains_str(&n, "directory") || contains_str(
        &n,
        "folder",
    ) || contains_str(&n, "workspace");
    execution && target
}

/// The flow a turn is handed to: the configured flow, when the mode is
/// `Always`, or `Auto` and the query reads as a multi-step task.
pub open spec fn selected_flow(config: AgentRuntimeConfig, query: Seq<char>) -> Option<Seq<char>> {
    match config.flow_id {
        Some(f) => match config.flow_mode {
            FlowMode::Off => None,
            FlowMode::Always => Some(f@),
            FlowMode::Auto => if complex_task(query) {
                Some(f@)
            } else {
                None
            },
        },
        None => None,
    }
}

pub fn select_flow_id(agent_config: &AgentRuntimeConfig, query_text: &str) -> (r: Option<String>)
    ensures
        match r {
            Some(f) => selected_flow(*agent_config, query_text@) == Some(f@),
            None => selected_flow(*agent_config, query_text@) is None,
        },
{
    let flow_id = match &agent_config.flow_id {
        Some(f) => f,
        None => return None,
    };
    match agent_config.flow_mode {
        FlowMode::Off => None,
        FlowMode::Always => Some(flow_id.clone()),
        FlowMode::Auto => if looks_like_complex_task(query_text) {
            Some(flow_id.clone())
        } else {
            None
        },
    }
}

pub open spec fn flow_success_word(s: Seq<char>) -> bool {
    s == "completed"@ || s == "complete"@ || s == "succeeded"@ || s == "success"@ || s
        == "finished"@ || s == "done"@
}

pub open spec fn flow_failure_word(s: Seq<char>) -> bool {
    s == "failed"@ || s == "error"@ || s == "errored"@ || s == "cancelled"@ || s == "canceled"@
        || s == "timed_out"@ || s == "timeout"@
}

pub fn is_flow_success_status(status: &str) -> (b: bool)
    ensures
        b == flow_success_word(status@),
{
    same_text(status, "completed") || same_text(status, "complete") || same_text(
        status,
        "succeeded",
    ) || same_text(status, "success") || same_text(status, "finished") || same_text(
        status,
        "done",
    )
}

pub fn is_flow_failure_status(status: &str) -> (b: bool)
    ensures
        b == flow_failure_word(status@),
{
    same_text(status, "failed") || same_text(status, "error") || same_text(status, "errored")
        || same_text(status, "cancelled") || same_text(status, "canceled") || same_text(
        status,
        "timed_out",
    ) || same_text(status, "timeout")
}

// ---------------------------------------------------------------------------
// Answers
// ---------------------------------------------------------------------------

/// The first `max_chars` characters, followed by `\n...` when some were cut.
pub open spec fn truncated_for_answer(value: Seq<char>, max_chars: nat) -> Seq<char> {
    if value.len() > max_chars {
        take_at_most(value, max_chars as int) + "\n..."@
    } else {
        value
    }
}

pub fn truncate_for_answer(value: &str, max_chars: usize) -> (r: String)
    ensures
        r@ == truncated_for_answer(value@, max_chars as nat),
{
    let v = chars_of(value);
    let mut t = take_chars(&v, max_chars);
    if v.len() > max_chars {
        push_str(&mut t, "\n...");
    }
    string_of(&t)
}

pub open spec fn nonblank(s: Option<Seq<char>>) -> bool {
    s matches Some(t) && trim_ws(t).len() > 0
}

/// The answer a finished flow gives: a non-blank string output, else the
/// first non-blank of its `final_answer`, `answer`, `summary`, `text` and
/// `report` members (each trimmed), else the output's JSON text when it is
/// not null, else a sentence naming the flow and its status.
pub open spec fn flow_answer(flow: ThinkingRootFlowRun, output_json_text: Seq<char>) -> Seq<char> {
    let fallback = "ThinkingRoot flow `"@ + flow.flow_id@ + "` completed with status `"@
        + flow.status@ + "`."@;
    match flow.output {
        Some(o) => if nonblank(json_str(o)) {
            trim_ws(json_str(o)->0)
        } else if nonblank(str_field(o, "final_answer"@)) {
            trim_ws(str_field(o, "final_answer"@)->0)
        } else if nonblank(str_field(o, "answer"@)) {
            trim_ws(str_field(o, "answer"@)->0)
        } else if nonblank(str_field(o, "summary"@)) {
            trim_ws(str_field(o, "summary"@)->0)
        } else if nonblank(str_field(o, "text"@)) {
            trim_ws(str_field(o, "text"@)->0)
        } else if nonblank(str_field(o, "report"@)) {
            trim_ws(str_field(o, "report"@)->0)
        } else if !(o is Null) {
            output_json_text
        } else {
            fallback
        },
        None => fallback,
    }
}

fn nonblank_trimmed(s: Option<&String>) -> (r: Option<Vec<char>>)
    ensures
        match r {
            Some(t) => nonblank(
                match s {
                    Some(x) => Some(x@),
                    None => None,
                },
            ) && t@ == trim_ws(s->0@),
            None => !nonblank(
                match s {
                    Some(x) => Some(x@),
                    None => None,
                },
            ),
        },
{
    match s {
        Some(x) => {
            let t = trim_chars(&chars_of(x.as_str()), CharClass::Whitespace);
            if t.len() > 0 {
                Some(t)
            } else {
                None
            }
        },
        None => None,
    }
}

/// The answer of a finished flow; `output_json_text` is the JSON text of its output.
pub fn flow_final_answer(flow_run: &ThinkingRootFlowRun, output_json_text: &str) -> (r: String)
    ensures
        r@ == flow_answer(*flow_run, output_json_text@),
{
    if let Some(output) = &flow_run.output {
        if let Some(t) = nonblank_trimmed(output.as_str()) {
            return string_of(&t);
        }
        if let Some(t) = nonblank_trimmed(output.str_field("final_answer")) {
            return string_of(&t);
        }
        if let Some(t) = nonblank_trimmed(output.str_field("answer")) {
            return string_of(&t);
        }
        if let Some(t) = nonblank_trimmed(output.str_field("summary")) {
            return string_of(&t);
        }
        if let Some(t) = nonblank_trimmed(output.str_field("text")) {
            return string_of(&t);
        }
        if let Some(t) = nonblank_trimmed(output.str_field("report")) {
            return string_of(&t);
        }
        if !output.is_null() {
            return string_of(&chars_of(output_json_text));
        }
    }
    let mut r: Vec<char> = Vec::new();
    push_str(&mut r, "ThinkingRoot flow `");
    push_str(&mut r, flow_run.flow_id.as_str());
    push_str(&mut r, "` completed with status `");
    push_str(&mut r, flow_run.status.as_str());
    push_str(&mut r, "`.");
    string_of(&r)
}

/// The lines describing one tool call, numbered `number`.
pub open spec fn call_lines(call: AgentToolExecutionRecord, number: nat) -> Seq<Seq<char>> {
    let title = seq!["\nTool call "@ + decimal_text(number) + ": "@ + call.tool_name@];
    let command = match str_field(call.arguments, "command"@) {
        Some(c) => seq!["Command: "@ + c],
        None => Seq::empty(),
    };
    let cwd = match str_field(call.result, "cwd"@) {
        Some(c) => seq!["Working directory: "@ + c],
        None => Seq::empty(),
    };
    let status = match str_field(call.result, "status"@) {
        Some(s) => seq!["Status: "@ + s],
        None => Seq::empty(),
    };
    let stdout = match str_field(call.result, "stdout"@) {
        Some(s) => if trim_ws(s).len() > 0 {
            seq!["Output:\n"@ + truncated_for_answer(trim_ws(s), 1200)]
        } else {
            Seq::empty()
        },
        None => Seq::empty(),
    };
    let stderr = match str_field(call.result, "stderr"@) {
        Some(s) => if trim_ws(s).len() > 0 {
            seq!["Error output:\n"@ + truncated_for_answer(trim_ws(s), 800)]
        } else {
            Seq::empty()
        },
        None => Seq::empty(),
    };
    title + command + cwd + status + stdout + stderr
}

/// The lines for the last `k` calls, the latest first; the latest is numbered `calls.len()`.
pub open spec fn latest_call_lines(calls: Seq<AgentToolExecutionRecord>, k: nat) -> Seq<Seq<char>>
    decreases k,
{
    if k == 0 {
        Seq::empty()
    } else {
        let n = calls.len();
        latest_call_lines(calls, (k - 1) as nat) + call_lines(
            calls[n - k],
            (n - k + 1) as nat,
        )
    }
}

pub open spec fn min_nat(a: nat, b: nat) -> nat {
    if a <= b {
        a
    } else {
        b
    }
}

/// The partial answer given when the tool iteration limit is reached: a
/// header, then the evidence of the last five tool calls, latest first.
pub open spec fn iteration_limit_answer(max_tool_iterations: nat, calls: Seq<AgentToolExecutionRecord>) -> Seq<char> {
    let header = "Stopped after reaching the max tool iteration limit ("@ + decimal_text(
        max_tool_iterations,
    ) + "). Here is the evidence gathered so far."@;
    let body = latest_call_lines(calls, min_nat(calls.len(), 5));
    let tail = if calls.len() == 0 {
        seq!["No tool output was captured before the limit was reached."@]
    } else {
        Seq::empty()
    };
    join_with(seq![header] + body + tail, "\n"@)
}

fn push_line(lines: &mut Vec<Vec<char>>, line: Vec<char>)
    ensures
        final(lines).deep_view() == old(lines).deep_view().push(line@),
{
    proof {
        crate::text::lemma_char_vec_deep(line);
    }
    let ghost before = lines.deep_view();
    lines.push(line);
    assert(lines.deep_view() =~= before.push(line@));
}

fn labelled(label: &str, body: &Vec<char>) -> (r: Vec<char>)
    ensures
        r@ == label@ + body@,
{
    let l = chars_of(label);
    concat_chars(&l, body)
}

fn push_call_lines(lines: &mut Vec<Vec<char>>, call: &AgentToolExecutionRecord, number: usize)
    ensures
        final(lines).deep_view() == old(lines).deep_view() + call_lines(*call, number as nat),
{
    let ghost start = lines.deep_view();
    let mut title = chars_of("\nTool call ");
    title = concat_chars(&title, &decimal_chars(number as u64));
    push_str(&mut title, ": ");
    push_str(&mut title, call.tool_name.as_str());
    push_line(lines, title);
    if let Some(c) = call.arguments.str_field("command") {
        push_line(lines, labelled("Command: ", &chars_of(c.as_str())));
    }
    if let Some(c) = call.result.str_field("cwd") {
        push_line(lines, labelled("Working directory: ", &chars_of(c.as_str())));
    }
    if let Some(s) = call.result.str_field("status") {
        push_line(lines, labelled("Status: ", &chars_of(s.as_str())));
    }
    if let Some(s) = call.result.str_field("stdout") {
        let t = trim_chars(&chars_of(s.as_str()), CharClass::Whitespace);
        if t.len() > 0 {
            let body = truncate_for_answer(string_of(&t).as_str(), 1200);
            push_line(lines, labelled("Output:\n", &chars_of(body.as_str())));
        }
    }
    if let Some(s) = call.result.str_field("stderr") {
        let t = trim_chars(&chars_of(s.as_str()), CharClass::Whitespace);
        if t.len() > 0 {
            let body = truncate_for_answer(string_of(&t).as_str(), 800);
            push_line(lines, labelled("Error output:\n", &chars_of(body.as_str())));
        }
    }
    assert(lines.deep_view() =~= start + call_lines(*call, number as nat));
}

pub fn build_tool_iteration_limit_answer(
    max_tool_iterations: usize,
    tool_calls: &Vec<AgentToolExecutionRecord>,
) -> (r: String)
    ensures
        r@ == iteration_limit_answer(max_tool_iterations as nat, tool_calls@),
{
    let mut lines: Vec<Vec<char>> = Vec::new();
    let mut header = chars_of("Stopped after reaching the max tool iteration limit (");
    header = concat_chars(&header, &decimal_chars(max_tool_iterations as u64));
    push_str(&mut header, "). Here is the evidence gathered so far.");
    let ghost header_view = header@;
    push_line(&mut lines, header);
    let n = tool_calls.len();
    let count = if n < 5 {
        n
    } else {
        5
    };
    let mut k: usize = 0;
    assert(lines.deep_view() =~= seq![header_view] + latest_call_lines(tool_calls@, 0));
    while k < count
        invariant
            k <= count <= n == tool_calls.len(),
            count == min_nat(n as nat, 5),
            lines.deep_view() == seq![header_view] + latest_call_lines(tool_calls@, k as nat),
        decreases count - k,
    {
        let ghost before = lines.deep_view();
        push_call_lines(&mut lines, &tool_calls[n - 1 - k], n - k);
        assert(lines.deep_view() =~= seq![header_view] + latest_call_lines(
            tool_calls@,
            (k + 1) as nat,
        ));
        k = k + 1;
    }
    if n == 0 {
        push_line(&mut lines, chars_of("No tool output was captured before the limit was reached."));
    }
    let mut sep: Vec<char> = Vec::new();
    sep.push('\n');
    assert(sep@ =~= "\n"@) by {
        reveal_strlit("\n");
    }
    let joined = join_chars(&lines, &sep);
    proof {
        if n == 0 {
            assert(lines.deep_view() =~= seq![header_view] + latest_call_lines(
                tool_calls@,
                min_nat(n as nat, 5),
            ) + seq!["No tool output was captured before the limit was reached."@]);
        } else {
            assert(lines.deep_view() =~= seq![header_view] + latest_call_lines(
                tool_calls@,
                min_nat(n as nat, 5),
            ) + Seq::<Seq<char>>::empty());
        }
    }
    string_of(&joined)
}


// ---------------------------------------------------------------------------
// Terminal requests and post-turn capture
// ---------------------------------------------------------------------------

/// Whether `t` is the terminal request that a call with `arguments` asks
/// for: its `command`, its `workdir` (else the turn's cwd), its
/// `timeout_seconds` and `max_output_bytes` (else the defaults), and no
/// allowed root of its own.
pub open spec fn terminal_request_from(
    arguments: JsonValue,
    prepared: PreparedTurnRequest,
    default_timeout_seconds: u64,
    default_max_output_bytes: usize,
    t: TerminalCommandRequest,
) -> bool {
    &&& str_field(arguments, "command"@) == Some(t.command@)
    &&& match str_field(arguments, "workdir"@) {
        Some(w) => t.workdir matches Some(x) && x@ == w,
        None => t.workdir == prepared.source.cwd,
    }
    &&& t.timeout_seconds == Some(
        match u64_field(arguments, "timeout_seconds"@) {
            Some(n) => n,
            None => default_timeout_seconds,
        },
    )
    &&& t.max_output_bytes == Some(
        match u64_field(arguments, "max_output_bytes"@) {
            Some(n) => n as usize,
            None => default_max_output_bytes,
        },
    )
    &&& t.allowed_root is None
}

/// The terminal request a `terminal` tool call asks for: its `command`
/// (required), its `workdir` (else the turn's cwd), its `timeout_seconds`
/// and `max_output_bytes` (else the configured defaults), and no allowed root.
pub fn build_terminal_request(
    arguments: &JsonValue,
    prepared: &PreparedTurnRequest,
    default_timeout_seconds: u64,
    default_max_output_bytes: usize,
) -> (r: Result<TerminalCommandRequest, String>)
    ensures
        r is Ok <==> str_field(*arguments, "command"@) is Some,
        r matches Err(e) ==> e@ == "terminal tool call missing command"@,
        r matches Ok(t) ==> terminal_request_from(
            *arguments,
            *prepared,
            default_timeout_seconds,
            default_max_output_bytes,
            t,
        ),
{
    let command = match arguments.str_field("command") {
        Some(c) => c.clone(),
        None => return Err(string_of(&chars_of("terminal tool call missing command"))),
    };
    let workdir = match arguments.str_field("workdir") {
        Some(w) => Some(w.clone()),
        None => copy_opt(&prepared.source.cwd),
    };
    let timeout_seconds = match arguments.u64_field("timeout_seconds") {
        Some(n) => Some(n),
        None => Some(default_timeout_seconds),
    };
    let max_output_bytes = match arguments.u64_field("max_output_bytes") {
        Some(n) => Some(n as usize),
        None => Some(default_max_output_bytes),
    };
    Ok(TerminalCommandRequest { command, workdir, timeout_seconds, max_output_bytes, allowed_root: None })
}

/// A piece is kept as a fact when, trimmed, it is at least 20 bytes long and is not a question.
pub open spec fn fact_worthy(piece: Seq<char>) -> bool {
    utf8_len(trim_ws(piece)) >= 20 && !ends_with_char(trim_ws(piece), '?')
}

/// The trimmed pieces that are kept as facts, in order.
pub open spec fn fact_candidates(pieces: Seq<Seq<char>>) -> Seq<Seq<char>>
    decreases pieces.len(),
{
    if pieces.len() == 0 {
        Seq::empty()
    } else {
        let r = fact_candidates(pieces.drop_last());
        if fact_worthy(pieces.last()) {
            r.push(trim_ws(pieces.last()))
        } else {
            r
        }
    }
}

pub open spec fn first_parts(s: Seq<Seq<char>>, n: nat) -> Seq<Seq<char>> {
    if s.len() <= n {
        s
    } else {
        s.take(n as int)
    }
}

/// The first five facts of a text split at `.` and newlines.
pub open spec fn sentences_of(text: Seq<char>) -> Seq<Seq<char>> {
    first_parts(fact_candidates(split_class(text, CharClass::EitherOf('.', '\n'))), 5)
}

/// The characters of each string.
pub open spec fn strings_view(v: Seq<String>) -> Seq<Seq<char>> {
    v.map_values(|s: String| s@)
}

pub fn extract_sentences(text: &str) -> (r: Vec<String>)
    ensures
        strings_view(r@) == sentences_of(text@),
{
    let pieces = split_chars(&chars_of(text), CharClass::EitherOf('.', '\n'));
    let mut kept: Vec<String> = Vec::new();
    let mut i: usize = 0;
    assert(pieces.deep_view().take(0) =~= Seq::<Seq<char>>::empty());
    assert(strings_view(kept@) =~= Seq::<Seq<char>>::empty());
    while i < pieces.len()
        invariant
            i <= pieces.len(),
            strings_view(kept@) == fact_candidates(pieces.deep_view().take(i as int)),
        decreases pieces.len() - i,
    {
        proof {
            crate::text::lemma_take_push_parts(pieces.deep_view(), i as int);
            crate::text::lemma_char_vec_deep(pieces[i as int]);
        }
        let t = trim_chars(&pieces[i], CharClass::Whitespace);
        let long_enough = utf8_len_at_least(&t, 20);
        let question = t.len() > 0 && t[t.len() - 1] == '?';
        if long_enough && !question {
            let ghost before = strings_view(kept@);
            kept.push(string_of(&t));
            assert(strings_view(kept@) =~= before.push(t@));
        }
        i = i + 1;
    }
    assert(pieces.deep_view().take(pieces.len() as int) =~= pieces.deep_view());
    let ghost all = strings_view(kept@);
    if kept.len() > 5 {
        kept.truncate(5);
        assert(strings_view(kept@) =~= all.take(5));
    }
    kept
}

/// The decisions recorded after a turn.
pub open spec fn turn_decisions(used_tools: bool, branch_scoped: bool) -> Seq<Seq<char>> {
    let a = if used_tools {
        seq!["Used routed tools to gather live evidence."@]
    } else {
        Seq::empty()
    };
    let b = if branch_scoped {
        seq!["Handled a branch-scoped turn request."@]
    } else {
        Seq::empty()
    };
    a + b
}

/// The knowledge captured after a turn: the trimmed answer as summary, its
/// sentences as facts, and the decisions the turn took.
pub fn build_post_turn_capture(
    prepared: &PreparedTurnRequest,
    identity: &AgentIdentity,
    final_answer: &str,
    tool_calls: &Vec<AgentToolExecutionRecord>,
) -> (c: PostTurnKnowledgeCapture)
    ensures
        c.request_id == prepared.request_id,
        c.agent_identity == *identity,
        c.summary matches Some(s) && s@ == trim_ws(final_answer@),
        strings_view(c.facts@) == sentences_of(final_answer@),
        strings_view(c.decisions@) == turn_decisions(tool_calls@.len() > 0, prepared.branch_id is Some),
{
    let facts = extract_sentences(final_answer);
    let mut decisions: Vec<String> = Vec::new();
    if tool_calls.len() > 0 {
        decisions.push(string_of(&chars_of("Used routed tools to gather live evidence.")));
    }
    if prepared.branch_id.is_some() {
        decisions.push(string_of(&chars_of("Handled a branch-scoped turn request.")));
    }
    assert(strings_view(decisions@) =~= turn_decisions(
        tool_calls@.len() > 0,
        prepared.branch_id is Some,
    ));
    PostTurnKnowledgeCapture {
        request_id: prepared.request_id,
        agent_identity: identity.duplicate(),
        summary: Some(string_of(&trim_chars(&chars_of(final_answer), CharClass::Whitespace))),
        facts,
        decisions,
    }
}

// ---------------------------------------------------------------------------
// Branch names
// ---------------------------------------------------------------------------

/// A branch path component: characters other than ASCII letters, digits,
/// `_` and `-` become `-`, `-` is trimmed from both ends, and an empty
/// result becomes `agent`.
pub open spec fn branch_component(value: Seq<char>) -> Seq<char> {
    or_default(
        trim_class(map_seq(CharMap::KeepIdentifierElse('-'), value), CharClass::Exactly('-')),
        "agent"@,
    )
}

/// The slug of a query: its first 32 characters lower-cased, every other
/// character a separator, runs of separators collapsed into one `-`; `turn` when empty.
pub open spec fn query_slug(query: Seq<char>) -> Seq<char> {
    or_default(
        collapse(
            map_seq(CharMap::LowerAlnumElseDash, take_at_most(query, 32)),
            CharClass::Exactly('-'),
            '-',
        ),
        "turn"@,
    )
}

/// `ownpager/<agent>/<slug>-<first 8 hex digits of the request id>`.
pub open spec fn turn_branch_id(agent_id: Seq<char>, request_id: Seq<char>, query: Seq<char>) -> Seq<char> {
    "ownpager/"@ + branch_component(agent_id) + "/"@ + query_slug(query) + "-"@ + take_at_most(
        hex_digits_of(request_id),
        8,
    )
}

pub fn sanitize_branch_component(value: &str) -> (r: String)
    ensures
        r@ == branch_component(value@),
{
    let mapped = map_chars(&chars_of(value), CharMap::KeepIdentifierElse('-'));
    let trimmed = trim_chars(&mapped, CharClass::Exactly('-'));
    if trimmed.len() > 0 {
        string_of(&trimmed)
    } else {
        string_of(&chars_of("agent"))
    }
}

pub fn derive_turn_branch_id(agent_id: &str, request_id: &str, query_text: &str) -> (r: String)
    ensures
        r@ == turn_branch_id(agent_id@, request_id@, query_text@),
{
    let head = take_chars(&chars_of(query_text), 32);
    let mapped = map_chars(&head, CharMap::LowerAlnumElseDash);
    let collapsed = collapse_chars(&mapped, CharClass::Exactly('-'), '-');
    let slug = if collapsed.len() > 0 {
        collapsed
    } else {
        chars_of("turn")
    };
    let short = take_chars(&hex_digits(&chars_of(request_id)), 8);
    let mut r = chars_of("ownpager/");
    push_str(&mut r, sanitize_branch_component(agent_id).as_str());
    push_str(&mut r, "/");
    let mut r = concat_chars(&r, &slug);
    push_str(&mut r, "-");
    let r = concat_chars(&r, &short);
    string_of(&r)
}

// ---------------------------------------------------------------------------
// Model input items
// ---------------------------------------------------------------------------

fn text_value(s: &str) -> (v: JsonValue)
    ensures
        json_str(v) == Some(s@),
{
    JsonValue::text(s)
}

fn string_value(s: String) -> (v: JsonValue)
    ensures
        json_str(v) == Some(s@),
{
    JsonValue::String(s)
}

/// A `user` message whose content is one `input_text` block holding `prompt`.
pub open spec fn is_user_message(v: JsonValue, prompt: Seq<char>) -> bool {
    &&& str_field(v, "role"@) == Some("user"@)
    &&& json_get(v, "content"@) matches Some(c) && json_array(c) matches Some(blocks) && blocks.len()
        == 1 && str_field(blocks[0], "type"@) == Some("input_text"@) && str_field(
        blocks[0],
        "text"@,
    ) == Some(prompt)
}

proof fn lemma_member_value_2(a: JsonMember, b: JsonMember, key: Seq<char>)
    ensures
        crate::json::member_value(seq![a, b], key) == if a.key@ == key {
            Some(a.value)
        } else if b.key@ == key {
            Some(b.value)
        } else {
            None
        },
{
    reveal_with_fuel(crate::json::member_value, 3);
    let s = seq![a, b];
    assert(s.drop_first() =~= seq![b]);
    assert(seq![b].drop_first() =~= Seq::<JsonMember>::empty());
}

proof fn lemma_member_value_3(a: JsonMember, b: JsonMember, c: JsonMember, key: Seq<char>)
    ensures
        crate::json::member_value(seq![a, b, c], key) == if a.key@ == key {
            Some(a.value)
        } else if b.key@ == key {
            Some(b.value)
        } else if c.key@ == key {
            Some(c.value)
        } else {
            None
        },
{
    reveal_with_fuel(crate::json::member_value, 4);
    let s = seq![a, b, c];
    assert(s.drop_first() =~= seq![b, c]);
    assert(seq![b, c].drop_first() =~= seq![c]);
    assert(seq![c].drop_first() =~= Seq::<JsonMember>::empty());
}

pub fn user_message(prompt: &str) -> (v: JsonValue)
    ensures
        is_user_message(v, prompt@),
        v matches JsonValue::Object(ms) && ms@.len() == 2,
{
    let block_type = member("type", text_value("input_text"));
    let block_text = member("text", text_value(prompt));
    let ghost bt = block_type;
    let ghost bx = block_text;
    let mut block_members: Vec<JsonMember> = Vec::new();
    block_members.push(block_type);
    block_members.push(block_text);
    proof {
        reveal_strlit("type");
        reveal_strlit("text");
        assert(block_members@ =~= seq![bt, bx]);
        assert("type"@[1] != "text"@[1]);
        assert("type"@ != "text"@);
        lemma_member_value_2(bt, bx, "type"@);
        lemma_member_value_2(bt, bx, "text"@);
    }
    let block = JsonValue::Object(block_members);
    let mut blocks: Vec<JsonValue> = Vec::new();
    blocks.push(block);
    let role = member("role", text_value("user"));
    let content = member("content", JsonValue::Array(blocks));
    let ghost r = role;
    let ghost c = content;
    let mut members: Vec<JsonMember> = Vec::new();
    members.push(role);
    members.push(content);
    proof {
        reveal_strlit("role");
        reveal_strlit("content");
        assert(members@ =~= seq![r, c]);
        assert("role"@.len() != "content"@.len());
        lemma_member_value_2(r, c, "role"@);
        lemma_member_value_2(r, c, "content"@);
    }
    JsonValue::Object(members)
}

/// A `function_call_output` item for call `call_id` whose output is the given JSON text.
pub open spec fn is_function_call_output(v: JsonValue, call_id: Seq<char>, output: Seq<char>) -> bool {
    &&& str_field(v, "type"@) == Some("function_call_output"@)
    &&& str_field(v, "call_id"@) == Some(call_id)
    &&& str_field(v, "output"@) == Some(output)
}

/// The item reporting a tool's result to the model; `output_text` is the JSON text of the result.
pub fn function_call_output(call_id: &str, output_text: String) -> (v: JsonValue)
    ensures
        is_function_call_output(v, call_id@, output_text@),
        v matches JsonValue::Object(ms) && ms@.len() == 3,
{
    let t = member("type", text_value("function_call_output"));
    let c = member("call_id", text_value(call_id));
    let ghost out_view = output_text@;
    let o = member("output", string_value(output_text));
    let ghost (gt, gc, go) = (t, c, o);
    let mut members: Vec<JsonMember> = Vec::new();
    members.push(t);
    members.push(c);
    members.push(o);
    proof {
        reveal_strlit("type");
        reveal_strlit("call_id");
        reveal_strlit("output");
        assert(members@ =~= seq![gt, gc, go]);
        assert("type"@.len() != "call_id"@.len());
        assert("type"@.len() != "output"@.len());
        assert("call_id"@.len() != "output"@.len());
        lemma_member_value_3(gt, gc, go, "type"@);
        lemma_member_value_3(gt, gc, go, "call_id"@);
        lemma_member_value_3(gt, gc, go, "output"@);
    }
    JsonValue::Object(members)
}

// ---------------------------------------------------------------------------
// The inputs a flow is started with
// ---------------------------------------------------------------------------

/// The name under which a source type is written.
pub open spec fn source_type_name(t: SourceType) -> Seq<char> {
    match t {
        SourceType::Cli => "cli"@,
        SourceType::Telegram => "telegram"@,
        SourceType::Web => "web"@,
    }
}

/// `v` is the text `o` holds, or `null` when it holds none.
pub open spec fn is_opt_text(v: JsonValue, o: Option<String>) -> bool {
    match o {
        Some(s) => json_str(v) == Some(s@),
        None => v is Null,
    }
}

/// The source of a request as an object: `source_type`, `user_id`,
/// `chat_id`, `message_id`, `cwd`, in that order.
pub open spec fn is_source_json(v: JsonValue, s: SourceMetadata) -> bool {
    &&& v matches JsonValue::Object(ms)
    &&& ms@.len() == 5
    &&& ms@[0].key@ == "source_type"@ && json_str(ms@[0].value) == Some(source_type_name(s.source_type))
    &&& ms@[1].key@ == "user_id"@ && is_opt_text(ms@[1].value, s.user_id)
    &&& ms@[2].key@ == "chat_id"@ && is_opt_text(ms@[2].value, s.chat_id)
    &&& ms@[3].key@ == "message_id"@ && is_opt_text(ms@[3].value, s.message_id)
    &&& ms@[4].key@ == "cwd"@ && is_opt_text(ms@[4].value, s.cwd)
}

/// An agent identity as an object: `agent_id`, `scoped_user_id`,
/// `workspace`, `prompt_name`, `session_id`, in that order.
pub open spec fn is_identity_json(v: JsonValue, id: AgentIdentity) -> bool {
    &&& v matches JsonValue::Object(ms)
    &&& ms@.len() == 5
    &&& ms@[0].key@ == "agent_id"@ && json_str(ms@[0].value) == Some(id.agent_id@)
    &&& ms@[1].key@ == "scoped_user_id"@ && json_str(ms@[1].value) == Some(id.scoped_user_id@)
    &&& ms@[2].key@ == "workspace"@ && json_str(ms@[2].value) == Some(id.workspace@)
    &&& ms@[3].key@ == "prompt_name"@ && is_opt_text(ms@[3].value, id.prompt_name)
    &&& ms@[4].key@ == "session_id"@ && json_str(ms@[4].value) == Some(id.session_id@)
}

/// A grounded claim as an object: `claim_id`, `statement`, `claim_type`,
/// `source_uri`, in that order.
pub open spec fn is_claim_json(v: JsonValue, c: ThinkingRootClaim) -> bool {
    &&& v matches JsonValue::Object(ms)
    &&& ms@.len() == 4
    &&& ms@[0].key@ == "claim_id"@ && json_str(ms@[0].value) == Some(c.claim_id@)
    &&& ms@[1].key@ == "statement"@ && json_str(ms@[1].value) == Some(c.statement@)
    &&& ms@[2].key@ == "claim_type"@ && json_str(ms@[2].value) == Some(c.claim_type@)
    &&& ms@[3].key@ == "source_uri"@ && json_str(ms@[3].value) == Some(c.source_uri@)
}

/// `v` is an array holding each claim of `claims` as an object, in order.
pub open spec fn is_claims_json(v: JsonValue, claims: Seq<ThinkingRootClaim>) -> bool {
    &&& v matches JsonValue::Array(items)
    &&& items@.len() == claims.len()
    &&& forall|i: int| 0 <= i < claims.len() ==> is_claim_json(#[trigger] items@[i], claims[i])
}

/// `v` is an array holding each of `names` as text, in order.
pub open spec fn is_texts_json(v: JsonValue, names: Seq<String>) -> bool {
    &&& v matches JsonValue::Array(items)
    &&& items@.len() == names.len()
    &&& forall|i: int| 0 <= i < names.len() ==> json_str(#[trigger] items@[i]) == Some(names[i]@)
}

/// What a flow learns of the capsule: `system_prompt`, `grounded_claims`,
/// `routed_tools`, `query_class`, in that order.
pub open spec fn is_capsule_json(v: JsonValue, c: ThinkingRootCapsule) -> bool {
    &&& v matches JsonValue::Object(ms)
    &&& ms@.len() == 4
    &&& ms@[0].key@ == "system_prompt"@ && json_str(ms@[0].value) == Some(c.system_prompt@)
    &&& ms@[1].key@ == "grounded_claims"@ && is_claims_json(ms@[1].value, c.grounded_claims@)
    &&& ms@[2].key@ == "routed_tools"@ && is_texts_json(ms@[2].value, c.routed_tools@)
    &&& ms@[3].key@ == "query_class"@ && is_opt_text(ms@[3].value, c.query_class)
}

/// The inputs a flow is started with: the request's id (as UUID text),
/// query, session key, workspace hint and branch, its source, the agent's
/// identity and prompt name, and what the capsule holds, in that order.
pub open spec fn is_flow_inputs(
    v: JsonValue,
    p: PreparedTurnRequest,
    id: AgentIdentity,
    c: ThinkingRootCapsule,
) -> bool {
    &&& v matches JsonValue::Object(ms)
    &&& ms@.len() == 9
    &&& ms@[0].key@ == "request_id"@ && json_str(ms@[0].value) == Some(uuid_text(p.request_id))
    &&& ms@[1].key@ == "query"@ && json_str(ms@[1].value) == Some(p.query_text@)
    &&& ms@[2].key@ == "session_key"@ && json_str(ms@[2].value) == Some(p.session_key@)
    &&& ms@[3].key@ == "workspace_hint"@ && is_opt_text(ms@[3].value, p.workspace_hint)
    &&& ms@[4].key@ == "branch_id"@ && is_opt_text(ms@[4].value, p.branch_id)
    &&& ms@[5].key@ == "source"@ && is_source_json(ms@[5].value, p.source)
    &&& ms@[6].key@ == "agent_identity"@ && is_identity_json(ms@[6].value, id)
    &&& ms@[7].key@ == "prompt_name"@ && is_opt_text(ms@[7].value, id.prompt_name)
    &&& ms@[8].key@ == "capsule"@ && is_capsule_json(ms@[8].value, c)
}

fn opt_text_value(o: &Option<String>) -> (v: JsonValue)
    ensures
        is_opt_text(v, *o),
{
    match o {
        Some(s) => string_value(s.clone()),
        None => JsonValue::Null,
    }
}

fn source_json(s: &SourceMetadata) -> (v: JsonValue)
    ensures
        is_source_json(v, *s),
{
    let t = match s.source_type {
        SourceType::Cli => text_value("cli"),
        SourceType::Telegram => text_value("telegram"),
        SourceType::Web => text_value("web"),
    };
    let mut ms: Vec<JsonMember> = Vec::new();
    ms.push(member("source_type", t));
    ms.push(member("user_id", opt_text_value(&s.user_id)));
    ms.push(member("chat_id", opt_text_value(&s.chat_id)));
    ms.push(member("message_id", opt_text_value(&s.message_id)));
    ms.push(member("cwd", opt_text_value(&s.cwd)));
    JsonValue::Object(ms)
}

fn identity_json(id: &AgentIdentity) -> (v: JsonValue)
    ensures
        is_identity_json(v, *id),
{
    let mut ms: Vec<JsonMember> = Vec::new();
    ms.push(member("agent_id", string_value(id.agent_id.clone())));
    ms.push(member("scoped_user_id", string_value(id.scoped_user_id.clone())));
    ms.push(member("workspace", string_value(id.workspace.clone())));
    ms.push(member("prompt_name", opt_text_value(&id.prompt_name)));
    ms.push(member("session_id", string_value(id.session_id.clone())));
    JsonValue::Object(ms)
}

fn claim_json(c: &ThinkingRootClaim) -> (v: JsonValue)
    ensures
        is_claim_json(v, *c),
{
    let mut ms: Vec<JsonMember> = Vec::new();
    ms.push(member("claim_id", string_value(c.claim_id.clone())));
    ms.push(member("statement", string_value(c.statement.clone())));
    ms.push(member("claim_type", string_value(c.claim_type.clone())));
    ms.push(member("source_uri", string_value(c.source_uri.clone())));
    JsonValue::Object(ms)
}

fn capsule_json(c: &ThinkingRootCapsule) -> (v: JsonValue)
    ensures
        is_capsule_json(v, *c),
{
    let mut claims: Vec<JsonValue> = Vec::new();
    let mut i: usize = 0;
    while i < c.grounded_claims.len()
        invariant
            i <= c.grounded_claims@.len(),
            claims@.len() == i,
            forall|k: int| 0 <= k < i ==> is_claim_json(#[trigger] claims@[k], c.grounded_claims@[k]),
        decreases c.grounded_claims@.len() - i,
    {
        claims.push(claim_json(&c.grounded_claims[i]));
        i += 1;
    }
    let mut tools: Vec<JsonValue> = Vec::new();
    let mut j: usize = 0;
    while j < c.routed_tools.len()
        invariant
            j <= c.routed_tools@.len(),
            tools@.len() == j,
            forall|k: int| 0 <= k < j ==> json_str(#[trigger] tools@[k]) == Some(c.routed_tools@[k]@),
        decreases c.routed_tools@.len() - j,
    {
        tools.push(string_value(c.routed_tools[j].clone()));
        j += 1;
    }
    let mut ms: Vec<JsonMember> = Vec::new();
    ms.push(member("system_prompt", string_value(c.system_prompt.clone())));
    ms.push(member("grounded_claims", JsonValue::Array(claims)));
    ms.push(member("routed_tools", JsonValue::Array(tools)));
    ms.push(member("query_class", opt_text_value(&c.query_class)));
    JsonValue::Object(ms)
}

/// The inputs a flow is started with, for a turn's prepared request,
/// agent identity and capsule.
pub fn flow_inputs(p: &PreparedTurnRequest, id: &AgentIdentity, c: &ThinkingRootCapsule) -> (v: JsonValue)
    ensures
        is_flow_inputs(v, *p, *id, *c),
{
    let mut ms: Vec<JsonMember> = Vec::new();
    ms.push(member("request_id", string_value(request_id_text(p.request_id))));
    ms.push(member("query", string_value(p.query_text.clone())));
    ms.push(member("session_key", string_value(p.session_key.clone())));
    ms.push(member("workspace_hint", opt_text_value(&p.workspace_hint)));
    ms.push(member("branch_id", opt_text_value(&p.branch_id)));
    ms.push(member("source", source_json(&p.source)));
    ms.push(member("agent_identity", identity_json(id)));
    ms.push(member("prompt_name", opt_text_value(&id.prompt_name)));
    ms.push(member("capsule", capsule_json(c)));
    JsonValue::Object(ms)
}


// ---------------------------------------------------------------------------
// Tools offered to the model
// ---------------------------------------------------------------------------

/// The description under which the terminal is offered.
pub open spec fn terminal_description() -> Seq<char> {
    "Run a local shell command to gather live evidence from the workspace."@
}

/// The description under which a Root Function is offered.
pub open spec fn root_function_description(function_name: Seq<char>) -> Seq<char> {
    "Invoke the ThinkingRoot Root Function `"@ + function_name
        + "` in the cloud sandbox. Pass the function input as JSON in `input`."@
}

/// `{"type": kind, "description": description}`, in that order.
pub open spec fn is_property(v: JsonValue, kind: Seq<char>, description: Seq<char>) -> bool {
    &&& v matches JsonValue::Object(ms)
    &&& ms@.len() == 2
    &&& ms@[0].key@ == "type"@ && json_str(ms@[0].value) == Some(kind)
    &&& ms@[1].key@ == "description"@ && json_str(ms@[1].value) == Some(description)
}

/// An object schema that allows no other members: `type` `object`,
/// `additionalProperties` false, `properties`, and `required` naming the
/// one field `required`, in that order.
pub open spec fn is_object_schema(v: JsonValue, required: Seq<char>) -> bool {
    &&& v matches JsonValue::Object(ms)
    &&& ms@.len() == 4
    &&& ms@[0].key@ == "type"@ && json_str(ms@[0].value) == Some("object"@)
    &&& ms@[1].key@ == "additionalProperties"@ && ms@[1].value == JsonValue::Bool(false)
    &&& ms@[2].key@ == "properties"@
    &&& ms@[3].key@ == "required"@
    &&& json_array(ms@[3].value) matches Some(items) && items.len() == 1 && json_str(items[0]) == Some(
        required,
    )
}

/// The `properties` member of an object schema.
pub open spec fn schema_properties(v: JsonValue) -> JsonValue {
    v->Object_0@[2].value
}

/// The terminal's parameters: `command`, `workdir`, `timeout_seconds` and
/// `max_output_bytes`, `command` required.
pub open spec fn is_terminal_schema(v: JsonValue) -> bool {
    &&& is_object_schema(v, "command"@)
    &&& schema_properties(v) matches JsonValue::Object(ps)
    &&& ps@.len() == 4
    &&& ps@[0].key@ == "command"@ && is_property(ps@[0].value, "string"@, "Shell command to run."@)
    &&& ps@[1].key@ == "workdir"@ && is_property(
        ps@[1].value,
        "string"@,
        "Working directory inside the allowed workspace root."@,
    )
    &&& ps@[2].key@ == "timeout_seconds"@ && is_property(
        ps@[2].value,
        "integer"@,
        "Optional timeout in seconds."@,
    )
    &&& ps@[3].key@ == "max_output_bytes"@ && is_property(
        ps@[3].value,
        "integer"@,
        "Optional max combined output size."@,
    )
}

/// A Root Function's parameters: one required `input`, an object that
/// allows any members.
pub open spec fn is_root_function_schema(v: JsonValue) -> bool {
    &&& is_object_schema(v, "input"@)
    &&& schema_properties(v) matches JsonValue::Object(ps)
    &&& ps@.len() == 1
    &&& ps@[0].key@ == "input"@
    &&& ps@[0].value matches JsonValue::Object(qs)
    &&& qs@.len() == 3
    &&& qs@[0].key@ == "type"@ && json_str(qs@[0].value) == Some("object"@)
    &&& qs@[1].key@ == "description"@ && json_str(qs@[1].value) == Some(
        "JSON payload for the Root Function."@,
    )
    &&& qs@[2].key@ == "additionalProperties"@ && qs@[2].value == JsonValue::Bool(true)
}

/// `{"type": kind_name, "description": description}`.
fn property(kind_name: &str, description: &str) -> (v: JsonValue)
    ensures
        is_property(v, kind_name@, description@),
{
    let mut ms: Vec<JsonMember> = Vec::new();
    ms.push(member("type", text_value(kind_name)));
    ms.push(member("description", text_value(description)));
    JsonValue::Object(ms)
}

fn one_string_array(s: &str) -> (v: JsonValue)
    ensures
        json_array(v) matches Some(items) && items.len() == 1 && json_str(items[0]) == Some(s@),
{
    let mut items: Vec<JsonValue> = Vec::new();
    items.push(text_value(s));
    JsonValue::Array(items)
}

/// An object schema: `type`, `additionalProperties`, `properties`, `required`.
fn object_schema(properties: JsonValue, required: &str) -> (v: JsonValue)
    ensures
        is_object_schema(v, required@),
        schema_properties(v) == properties,
{
    let mut ms: Vec<JsonMember> = Vec::new();
    ms.push(member("type", text_value("object")));
    ms.push(member("additionalProperties", JsonValue::Bool(false)));
    ms.push(member("properties", properties));
    ms.push(member("required", one_string_array(required)));
    JsonValue::Object(ms)
}

/// The definition of the local `terminal` tool.
pub fn terminal_tool_definition() -> (d: OpenAiToolDefinition)
    ensures
        d.name@ == "terminal"@,
        d.description@ == terminal_description(),
        is_terminal_schema(d.parameters),
{
    let mut props: Vec<JsonMember> = Vec::new();
    props.push(member("command", property("string", "Shell command to run.")));
    props.push(
        member(
            "workdir",
            property("string", "Working directory inside the allowed workspace root."),
        ),
    );
    props.push(member("timeout_seconds", property("integer", "Optional timeout in seconds.")));
    props.push(
        member("max_output_bytes", property("integer", "Optional max combined output size.")),
    );
    OpenAiToolDefinition {
        name: string_of(&chars_of("terminal")),
        description: string_of(
            &chars_of("Run a local shell command to gather live evidence from the workspace."),
        ),
        parameters: object_schema(JsonValue::Object(props), "command"),
    }
}

/// The definition of the tool through which the model invokes a Root Function.
pub fn root_function_tool_definition(tool_name: &str, function_name: &str) -> (d: OpenAiToolDefinition)
    ensures
        d.name@ == tool_name@,
        d.description@ == root_function_description(function_name@),
        is_root_function_schema(d.parameters),
{
    let input_property = {
        let t = member("type", text_value("object"));
        let d = member("description", text_value("JSON payload for the Root Function."));
        let a = member("additionalProperties", JsonValue::Bool(true));
        let mut ms: Vec<JsonMember> = Vec::new();
        ms.push(t);
        ms.push(d);
        ms.push(a);
        JsonValue::Object(ms)
    };
    let mut props: Vec<JsonMember> = Vec::new();
    props.push(member("input", input_property));
    let mut description = chars_of("Invoke the ThinkingRoot Root Function `");
    push_str(&mut description, function_name);
    push_str(&mut description, "` in the cloud sandbox. Pass the function input as JSON in `input`.");
    OpenAiToolDefinition {
        name: string_of(&chars_of(tool_name)),
        description: string_of(&description),
        parameters: object_schema(JsonValue::Object(props), "input"),
    }
}

/// The OpenAI tool name of a Root Function: `tr_` and the name with ASCII
/// letters lower-cased, digits and `_` kept and every other character a
/// separator, runs of `_` collapsed; `tr_` is added when the result does not
/// start with it, an empty result becomes `tr_root_function`, and at most 64
/// characters are kept.
pub open spec fn root_function_tool_name(function_name: Seq<char>) -> Seq<char> {
    let collapsed = collapse(
        "tr_"@ + map_seq(CharMap::LowerWordElseUnderscore, function_name),
        CharClass::Exactly('_'),
        '_',
    );
    let safe = if collapsed.len() == 0 {
        "tr_root_function"@
    } else if starts_with_seq(collapsed, "tr_"@) {
        collapsed
    } else {
        "tr_"@ + collapsed
    };
    take_at_most(safe, 64)
}

pub fn openai_root_function_tool_name(function_name: &str) -> (r: String)
    ensures
        r@ == root_function_tool_name(function_name@),
{
    let mut name = chars_of("tr_");
    let mapped = map_chars(&chars_of(function_name), CharMap::LowerWordElseUnderscore);
    let name = concat_chars(&name, &mapped);
    let collapsed = collapse_chars(&name, CharClass::Exactly('_'), '_');
    let safe = if collapsed.len() == 0 {
        chars_of("tr_root_function")
    } else if starts_with_str(&collapsed, "tr_") {
        collapsed
    } else {
        let prefix = chars_of("tr_");
        concat_chars(&prefix, &collapsed)
    };
    string_of(&take_chars(&safe, 64))
}

// ---------------------------------------------------------------------------
// Tool registry and execution plans
// ---------------------------------------------------------------------------

#[derive(Clone, Copy, Debug, PartialEq, Eq, Structural)]
pub enum ToolSpecKind {
    LocalTerminal,
}

/// A tool the runtime can execute itself, with the route names that reach it.
#[derive(Clone, Debug)]
pub struct ToolSpec {
    pub canonical_name: String,
    pub route_aliases: Vec<String>,
    pub kind: ToolSpecKind,
}

#[derive(Clone, Debug)]
pub struct ToolRegistry {
    pub specs: Vec<ToolSpec>,
}

/// Whether a route name reaches a tool spec: its canonical name or one of its aliases.
pub open spec fn spec_reached_by(s: ToolSpec, name: Seq<char>) -> bool {
    s.canonical_name@ == name || strings_view(s.route_aliases@).contains(name)
}

/// The index of the first spec that a route name reaches.
pub open spec fn first_spec(specs: Seq<ToolSpec>, name: Seq<char>) -> Option<int>
    decreases specs.len(),
{
    if specs.len() == 0 {
        None
    } else if spec_reached_by(specs[0], name) {
        Some(0)
    } else {
        match first_spec(specs.drop_first(), name) {
            Some(k) => Some(k + 1),
            None => None,
        }
    }
}

proof fn lemma_first_spec(specs: Seq<ToolSpec>, name: Seq<char>)
    ensures
        first_spec(specs, name) matches Some(k) ==> 0 <= k < specs.len() && spec_reached_by(
            specs[k],
            name,
        ),
    decreases specs.len(),
{
    if specs.len() > 0 {
        lemma_first_spec(specs.drop_first(), name);
    }
}

pub fn copy_strings(v: &Vec<String>) -> (r: Vec<String>)
    ensures
        r@ == v@,
{
    let mut r: Vec<String> = Vec::new();
    let mut i: usize = 0;
    while i < v.len()
        invariant
            i <= v.len(),
            r@ == v@.take(i as int),
        decreases v.len() - i,
    {
        r.push(v[i].clone());
        assert(v@.take(i + 1) =~= v@.take(i as int).push(v@[i as int]));
        i = i + 1;
    }
    assert(v@.take(v.len() as int) =~= v@);
    r
}

/// Whether `v` holds a string with the characters of `s`.
pub fn contains_string(v: &Vec<String>, s: &str) -> (b: bool)
    ensures
        b == strings_view(v@).contains(s@),
{
    let mut i: usize = 0;
    while i < v.len()
        invariant
            i <= v.len(),
            forall|k: int| 0 <= k < i ==> v@[k]@ != s@,
        decreases v.len() - i,
    {
        if same_text(v[i].as_str(), s) {
            assert(strings_view(v@)[i as int] == s@);
            return true;
        }
        i = i + 1;
    }
    assert forall|k: int| 0 <= k < strings_view(v@).len() implies strings_view(v@)[k] != s@ by {
        assert(strings_view(v@)[k] == v@[k]@);
    }
    false
}

impl ToolRegistry {
    /// The registry of local tools: only the terminal, reached as `terminal`
    /// or `function::terminal`.
    pub fn default() -> (r: ToolRegistry)
        ensures
            r.specs@.len() == 1,
            r.specs@[0].canonical_name@ == "terminal"@,
            strings_view(r.specs@[0].route_aliases@) == seq!["terminal"@, "function::terminal"@],
            r.specs@[0].kind == ToolSpecKind::LocalTerminal,
    {
        let mut aliases: Vec<String> = Vec::new();
        aliases.push(string_of(&chars_of("terminal")));
        aliases.push(string_of(&chars_of("function::terminal")));
        assert(strings_view(aliases@) =~= seq!["terminal"@, "function::terminal"@]);
        let mut specs: Vec<ToolSpec> = Vec::new();
        specs.push(
            ToolSpec {
                canonical_name: string_of(&chars_of("terminal")),
                route_aliases: aliases,
                kind: ToolSpecKind::LocalTerminal,
            },
        );
        ToolRegistry { specs }
    }

    /// The first local tool that `routed_name` reaches.
    pub fn find_spec(&self, routed_name: &str) -> (r: Option<usize>)
        ensures
            match r {
                Some(k) => first_spec(self.specs@, routed_name@) == Some(k as int) && k
                    < self.specs@.len(),
                None => first_spec(self.specs@, routed_name@) is None,
            },
    {
        proof {
            lemma_first_spec(self.specs@, routed_name@);
        }
        let mut i: usize = 0;
        assert(self.specs@.subrange(0, self.specs@.len() as int) =~= self.specs@);
        while i < self.specs.len()
            invariant
                i <= self.specs.len(),
                first_spec(self.specs@, routed_name@) == match first_spec(
                    self.specs@.subrange(i as int, self.specs@.len() as int),
                    routed_name@,
                ) {
                    Some(k) => Some(k + i),
                    None => None,
                },
            decreases self.specs.len() - i,
        {
            let ghost rest = self.specs@.subrange(i as int, self.specs@.len() as int);
            assert(rest[0] == self.specs@[i as int]);
            let spec = &self.specs[i];
            if same_text(spec.canonical_name.as_str(), routed_name) || contains_string(
                &spec.route_aliases,
                routed_name,
            ) {
                return Some(i);
            }
            assert(rest.drop_first() =~= self.specs@.subrange(i + 1, self.specs@.len() as int));
            i = i + 1;
        }
        None
    }
}

/// A Root Function offered to the model under an OpenAI tool name.
#[derive(Clone, Debug)]
pub struct RootFunctionRoute {
    pub tool_name: String,
    pub function_name: String,
}

/// The tools a turn offers the model and how their names are resolved.
#[derive(Debug)]
pub struct ExecutionPlan {
    pub tool_definitions: Vec<OpenAiToolDefinition>,
    pub available_tool_names: Vec<String>,
    pub allowed_routes: Vec<String>,
    pub root_function_routes: Vec<RootFunctionRoute>,
    pub used_local_fallback: bool,
    pub warnings: Vec<String>,
}

/// A plan by its contents: definitions by name and description, names,
/// allowed routes, Root Function routes and warnings.
#[verifier::ext_equal]
pub struct PlanModel {
    pub defs: Seq<(Seq<char>, Seq<char>)>,
    pub available: Seq<Seq<char>>,
    pub allowed: Seq<Seq<char>>,
    pub routes: Seq<(Seq<char>, Seq<char>)>,
    pub warnings: Seq<Seq<char>>,
}

pub open spec fn def_view(d: OpenAiToolDefinition) -> (Seq<char>, Seq<char>) {
    (d.name@, d.description@)
}

pub open spec fn route_view(r: RootFunctionRoute) -> (Seq<char>, Seq<char>) {
    (r.tool_name@, r.function_name@)
}

/// A plan by its contents.
pub open spec fn plan_view(p: ExecutionPlan) -> PlanModel {
    PlanModel {
        defs: p.tool_definitions@.map_values(|d: OpenAiToolDefinition| def_view(d)),
        available: strings_view(p.available_tool_names@),
        allowed: strings_view(p.allowed_routes@),
        routes: p.root_function_routes@.map_values(|r: RootFunctionRoute| route_view(r)),
        warnings: strings_view(p.warnings@),
    }
}

/// Whether a Root Function route exists for an OpenAI tool name.
pub open spec fn has_route(routes: Seq<(Seq<char>, Seq<char>)>, tool_name: Seq<char>) -> bool {
    exists|k: int| 0 <= k < routes.len() && routes[k].0 == tool_name
}

/// `s` with `x` added when it is not there yet.
pub open spec fn insert_new(s: Seq<Seq<char>>, x: Seq<char>) -> Seq<Seq<char>> {
    if s.contains(x) {
        s
    } else {
        s.push(x)
    }
}

/// How one routed name changes the plan: a name that reaches a local tool
/// offers the terminal once under the tool's canonical name (or only warns
/// when local execution is disabled); any
/// other name is offered as a Root Function under its OpenAI tool name,
/// unless that name collides with one already offered.
pub open spec fn plan_step(m: PlanModel, specs: Seq<ToolSpec>, name: Seq<char>, allow_local: bool) -> PlanModel {
    match first_spec(specs, name) {
        Some(k) => if !allow_local {
            PlanModel {
                warnings: m.warnings.push(
                    "ThinkingRoot routed local tool `"@ + name
                        + "` but local terminal execution is disabled."@,
                ),
                ..m
            }
        } else {
            let c = specs[k].canonical_name@;
            let m1 = if m.allowed.contains(c) {
                m
            } else {
                PlanModel {
                    defs: m.defs.push(("terminal"@, terminal_description())),
                    available: m.available.push(c),
                    allowed: m.allowed.push(c),
                    ..m
                }
            };
            PlanModel { allowed: insert_new(m1.allowed, name), ..m1 }
        },
        None => {
            let t = root_function_tool_name(name);
            if has_route(m.routes, t) {
                PlanModel {
                    warnings: m.warnings.push(
                        "ThinkingRoot routed `"@ + name
                            + "` but its OpenAI tool name collided with another Root Function."@,
                    ),
                    ..m
                }
            } else if m.allowed.contains(t) {
                m
            } else {
                PlanModel {
                    defs: m.defs.push((t, root_function_description(name))),
                    available: m.available.push(name),
                    allowed: m.allowed.push(t),
                    routes: m.routes.push((t, name)),
                    ..m
                }
            }
        },
    }
}

pub open spec fn empty_plan() -> PlanModel {
    PlanModel {
        defs: Seq::empty(),
        available: Seq::empty(),
        allowed: Seq::empty(),
        routes: Seq::empty(),
        warnings: Seq::empty(),
    }
}

/// The plan for a list of routed names, taken in order.
pub open spec fn plan_for(specs: Seq<ToolSpec>, names: Seq<Seq<char>>, allow_local: bool) -> PlanModel
    decreases names.len(),
{
    if names.len() == 0 {
        empty_plan()
    } else {
        plan_step(plan_for(specs, names.drop_last(), allow_local), specs, names.last(), allow_local)
    }
}

/// The schema of a definition's kind: the terminal's, or a Root Function's.
pub open spec fn has_schema_of_its_kind(d: OpenAiToolDefinition) -> bool {
    if d.name@ == "terminal"@ {
        is_terminal_schema(d.parameters)
    } else {
        is_root_function_schema(d.parameters)
    }
}

/// Every offered definition carries the schema of its kind.
pub open spec fn defs_well_formed(defs: Seq<OpenAiToolDefinition>) -> bool {
    forall|i: int| 0 <= i < defs.len() ==> has_schema_of_its_kind(#[trigger] defs[i])
}

pub proof fn lemma_tool_name_prefix(name: Seq<char>)
    ensures
        root_function_tool_name(name).len() >= 3,
        root_function_tool_name(name)[0] == 't',
        root_function_tool_name(name)[1] == 'r',
        root_function_tool_name(name)[2] == '_',
{
    reveal_strlit("tr_");
    reveal_strlit("tr_root_function");
    let collapsed = collapse(
        "tr_"@ + map_seq(CharMap::LowerWordElseUnderscore, name),
        CharClass::Exactly('_'),
        '_',
    );
    let safe = if collapsed.len() == 0 {
        "tr_root_function"@
    } else if starts_with_seq(collapsed, "tr_"@) {
        collapsed
    } else {
        "tr_"@ + collapsed
    };
    if collapsed.len() != 0 && starts_with_seq(collapsed, "tr_"@) {
        assert(collapsed.subrange(0, 3)[0] == collapsed[0]);
        assert(collapsed.subrange(0, 3)[1] == collapsed[1]);
        assert(collapsed.subrange(0, 3)[2] == collapsed[2]);
    }
    assert(safe.len() >= 3 && safe[0] == 't' && safe[1] == 'r' && safe[2] == '_');
    let r = take_at_most(safe, 64);
    if safe.len() > 64 {
        assert(r[0] == safe[0] && r[1] == safe[1] && r[2] == safe[2]);
    }
}

proof fn lemma_defs_push(defs: Seq<OpenAiToolDefinition>, d: OpenAiToolDefinition)
    requires
        defs_well_formed(defs),
        has_schema_of_its_kind(d),
    ensures
        defs_well_formed(defs.push(d)),
{
    let n = defs.push(d);
    assert forall|i: int| 0 <= i < n.len() implies has_schema_of_its_kind(#[trigger] n[i]) by {
        if i < defs.len() {
            assert(n[i] == defs[i]);
        }
    }
}

fn find_route(routes: &Vec<RootFunctionRoute>, tool_name: &str) -> (r: Option<usize>)
    ensures
        match r {
            Some(k) => k < routes@.len() && routes@[k as int].tool_name@ == tool_name@ && forall|
                j: int,
            | 0 <= j < k ==> routes@[j].tool_name@ != tool_name@,
            None => !has_route(routes@.map_values(|r: RootFunctionRoute| route_view(r)), tool_name@),
        },
{
    let mut i: usize = 0;
    while i < routes.len()
        invariant
            i <= routes.len(),
            forall|j: int| 0 <= j < i ==> routes@[j].tool_name@ != tool_name@,
        decreases routes.len() - i,
    {
        if same_text(routes[i].tool_name.as_str(), tool_name) {
            return Some(i);
        }
        i = i + 1;
    }
    let ghost rv = routes@.map_values(|r: RootFunctionRoute| route_view(r));
    assert forall|k: int| 0 <= k < rv.len() implies rv[k].0 != tool_name@ by {
        assert(rv[k] == route_view(routes@[k]));
    }
    None
}

fn push_string(v: &mut Vec<String>, s: String)
    ensures
        strings_view(final(v)@) == strings_view(old(v)@).push(s@),
{
    v.push(s);
    assert(strings_view(v@) =~= strings_view(old(v)@).push(s@));
}

fn warning_text(before: &str, name: &str, after: &str) -> (r: String)
    ensures
        r@ == before@ + name@ + after@,
{
    let mut w = chars_of(before);
    push_str(&mut w, name);
    push_str(&mut w, after);
    string_of(&w)
}

impl ToolRegistry {
    /// The plan for the names ThinkingRoot routed, in order.
    pub fn build_execution_plan(
        &self,
        routed_tool_names: &Vec<String>,
        used_local_fallback: bool,
        agent_config: &AgentRuntimeConfig,
    ) -> (p: ExecutionPlan)
        ensures
            plan_view(p) == plan_for(
                self.specs@,
                strings_view(routed_tool_names@),
                agent_config.allow_local_terminal,
            ),
            p.used_local_fallback == used_local_fallback,
            defs_well_formed(p.tool_definitions@),
    {
        let mut p = ExecutionPlan {
            tool_definitions: Vec::new(),
            available_tool_names: Vec::new(),
            allowed_routes: Vec::new(),
            root_function_routes: Vec::new(),
            used_local_fallback,
            warnings: Vec::new(),
        };
        let ghost names = strings_view(routed_tool_names@);
        assert(plan_view(p) =~= empty_plan());
        assert(names.take(0) =~= Seq::<Seq<char>>::empty());
        let mut i: usize = 0;
        while i < routed_tool_names.len()
            invariant
                i <= routed_tool_names.len(),
                names == strings_view(routed_tool_names@),
                plan_view(p) == plan_for(
                    self.specs@,
                    names.take(i as int),
                    agent_config.allow_local_terminal,
                ),
                p.used_local_fallback == used_local_fallback,
                defs_well_formed(p.tool_definitions@),
            decreases routed_tool_names.len() - i,
        {
            let routed_name = routed_tool_names[i].as_str();
            let ghost m = plan_view(p);
            assert(names.take(i + 1).drop_last() =~= names.take(i as int));
            assert(names.take(i + 1).last() == routed_name@);
            match self.find_spec(routed_name) {
                Some(k) => {
                    if !agent_config.allow_local_terminal {
                        push_string(
                            &mut p.warnings,
                            warning_text(
                                "ThinkingRoot routed local tool `",
                                routed_name,
                                "` but local terminal execution is disabled.",
                            ),
                        );
                    } else {
                        let canonical = self.specs[k].canonical_name.as_str();
                        if !contains_string(&p.allowed_routes, canonical) {
                            let ghost defs_before = p.tool_definitions@;
                            let d = terminal_tool_definition();
                            proof {
                                lemma_defs_push(defs_before, d);
                            }
                            p.tool_definitions.push(d);
                            assert(p.tool_definitions@ == defs_before.push(d));
                            push_string(&mut p.available_tool_names, canonical.to_owned());
                            push_string(&mut p.allowed_routes, canonical.to_owned());
                            assert(p.tool_definitions@.map_values(
                                |d: OpenAiToolDefinition| def_view(d),
                            ) =~= m.defs.push(("terminal"@, terminal_description())));
                        }
                        if !contains_string(&p.allowed_routes, routed_name) {
                            push_string(&mut p.allowed_routes, routed_name.to_owned());
                        }
                    }
                    assert(plan_view(p).defs =~= plan_step(m, self.specs@, routed_name@, agent_config.allow_local_terminal).defs);
                    assert(plan_view(p).available =~= plan_step(m, self.specs@, routed_name@, agent_config.allow_local_terminal).available);
                    assert(plan_view(p).allowed =~= plan_step(m, self.specs@, routed_name@, agent_config.allow_local_terminal).allowed);
                    assert(plan_view(p).routes =~= plan_step(m, self.specs@, routed_name@, agent_config.allow_local_terminal).routes);
                    assert(plan_view(p).warnings =~= plan_step(m, self.specs@, routed_name@, agent_config.allow_local_terminal).warnings);
                },
                None => {
                    let tool_name = openai_root_function_tool_name(routed_name);
                    let found = find_route(&p.root_function_routes, tool_name.as_str());
                    if let Some(k) = found {
                        assert(m.routes[k as int] == route_view(p.root_function_routes@[k as int]));
                        assert(has_route(m.routes, tool_name@));
                        push_string(
                            &mut p.warnings,
                            warning_text(
                                "ThinkingRoot routed `",
                                routed_name,
                                "` but its OpenAI tool name collided with another Root Function.",
                            ),
                        );
                    } else if !contains_string(&p.allowed_routes, tool_name.as_str()) {
                        let ghost defs_before = p.tool_definitions@;
                        let ghost routes_before = p.root_function_routes@;
                        let d = root_function_tool_definition(tool_name.as_str(), routed_name);
                        proof {
                            reveal_strlit("terminal");
                            lemma_tool_name_prefix(routed_name@);
                            let tn = tool_name@;
                            if tn == "terminal"@ {
                                assert(tn[1] == "terminal"@[1]);
                            }
                            assert(d.name@ != "terminal"@);
                            lemma_defs_push(defs_before, d);
                        }
                        p.tool_definitions.push(d);
                        let route = RootFunctionRoute {
                            tool_name: tool_name.clone(),
                            function_name: routed_name.to_owned(),
                        };
                        p.root_function_routes.push(route);
                        push_string(&mut p.available_tool_names, routed_name.to_owned());
                        push_string(&mut p.allowed_routes, tool_name);
                        assert(p.tool_definitions@.map_values(|d: OpenAiToolDefinition| def_view(d))
                            =~= m.defs.push((tool_name@, root_function_description(routed_name@))));
                        assert(p.root_function_routes@.map_values(
                            |r: RootFunctionRoute| route_view(r),
                        ) =~= m.routes.push((tool_name@, routed_name@)));
                    }
                    assert(plan_view(p).defs =~= plan_step(m, self.specs@, routed_name@, agent_config.allow_local_terminal).defs);
                    assert(plan_view(p).available =~= plan_step(m, self.specs@, routed_name@, agent_config.allow_local_terminal).available);
                    assert(plan_view(p).allowed =~= plan_step(m, self.specs@, routed_name@, agent_config.allow_local_terminal).allowed);
                    assert(plan_view(p).routes =~= plan_step(m, self.specs@, routed_name@, agent_config.allow_local_terminal).routes);
                    assert(plan_view(p).warnings =~= plan_step(m, self.specs@, routed_name@, agent_config.allow_local_terminal).warnings);
                },
            }
            assert(plan_view(p) =~= plan_step(m, self.specs@, routed_name@, agent_config.allow_local_terminal));
            assert(plan_view(p) =~= plan_for(
                self.specs@,
                names.take(i + 1),
                agent_config.allow_local_terminal,
            ));
            i = i + 1;
        }
        assert(names.take(routed_tool_names.len() as int) =~= names);
        p
    }
}

impl ExecutionPlan {
    /// The part of the plan reported in the turn result.
    pub fn summary(&self) -> (s: AgentTurnExecutionPlan)
        ensures
            s.available_tool_names@ == self.available_tool_names@,
            s.used_local_fallback == self.used_local_fallback,
    {
        AgentTurnExecutionPlan {
            available_tool_names: copy_strings(&self.available_tool_names),
            used_local_fallback: self.used_local_fallback,
        }
    }
}

/// How a tool call from the model is served.
#[derive(Clone, Debug)]
pub enum ToolDispatch {
    /// The name is not among the turn's allowed routes.
    NotRouted,
    /// The name is the OpenAI tool name of this Root Function.
    RootFunction(String),
    /// The name reaches a local tool.
    LocalTerminal,
    /// The name is allowed but resolves to nothing.
    Unmapped,
}

/// The function name of the first route for `tool_name`.
pub open spec fn route_target(routes: Seq<RootFunctionRoute>, tool_name: Seq<char>) -> Option<Seq<char>>
    decreases routes.len(),
{
    if routes.len() == 0 {
        None
    } else if routes[0].tool_name@ == tool_name {
        Some(routes[0].function_name@)
    } else {
        route_target(routes.drop_first(), tool_name)
    }
}

proof fn lemma_route_target(routes: Seq<RootFunctionRoute>, tool_name: Seq<char>, k: int)
    requires
        0 <= k < routes.len(),
        routes[k].tool_name@ == tool_name,
        forall|j: int| 0 <= j < k ==> routes[j].tool_name@ != tool_name,
    ensures
        route_target(routes, tool_name) == Some(routes[k].function_name@),
    decreases k,
{
    if k > 0 {
        lemma_route_target(routes.drop_first(), tool_name, k - 1);
    }
}

proof fn lemma_route_target_none(routes: Seq<RootFunctionRoute>, tool_name: Seq<char>)
    requires
        forall|j: int| 0 <= j < routes.len() ==> routes[j].tool_name@ != tool_name,
    ensures
        route_target(routes, tool_name) is None,
    decreases routes.len(),
{
    if routes.len() > 0 {
        lemma_route_target_none(routes.drop_first(), tool_name);
    }
}

/// How a call to `function_name` is served under a plan.
pub open spec fn dispatch_of(specs: Seq<ToolSpec>, plan: ExecutionPlan, function_name: Seq<char>) -> ToolDispatchModel {
    if !strings_view(plan.allowed_routes@).contains(function_name) {
        ToolDispatchModel::NotRouted
    } else if route_target(plan.root_function_routes@, function_name) is Some {
        ToolDispatchModel::RootFunction(route_target(plan.root_function_routes@, function_name)->0)
    } else if first_spec(specs, function_name) is Some {
        ToolDispatchModel::LocalTerminal
    } else {
        ToolDispatchModel::Unmapped
    }
}

/// A dispatch by its contents.
pub enum ToolDispatchModel {
    NotRouted,
    RootFunction(Seq<char>),
    LocalTerminal,
    Unmapped,
}

pub open spec fn dispatch_view(d: ToolDispatch) -> ToolDispatchModel {
    match d {
        ToolDispatch::NotRouted => ToolDispatchModel::NotRouted,
        ToolDispatch::RootFunction(f) => ToolDispatchModel::RootFunction(f@),
        ToolDispatch::LocalTerminal => ToolDispatchModel::LocalTerminal,
        ToolDispatch::Unmapped => ToolDispatchModel::Unmapped,
    }
}

impl ToolRegistry {
    /// How the model's call to `function_name` is served.
    pub fn dispatch(&self, plan: &ExecutionPlan, function_name: &str) -> (d: ToolDispatch)
        ensures
            dispatch_view(d) == dispatch_of(self.specs@, *plan, function_name@),
    {
        if !contains_string(&plan.allowed_routes, function_name) {
            return ToolDispatch::NotRouted;
        }
        match find_route(&plan.root_function_routes, function_name) {
            Some(k) => {
                proof {
                    lemma_route_target(plan.root_function_routes@, function_name@, k as int);
                }
                return ToolDispatch::RootFunction(plan.root_function_routes[k].function_name.clone());
            },
            None => {
                proof {
                    let rv = plan.root_function_routes@.map_values(
                        |r: RootFunctionRoute| route_view(r),
                    );
                    assert forall|j: int|
                        0 <= j < plan.root_function_routes@.len() implies plan.root_function_routes@[j].tool_name@
                        != function_name@ by {
                        assert(rv[j] == route_view(plan.root_function_routes@[j]));
                    }
                    lemma_route_target_none(plan.root_function_routes@, function_name@);
                }
            },
        }
        if self.find_spec(function_name).is_some() {
            ToolDispatch::LocalTerminal
        } else {
            ToolDispatch::Unmapped
        }
    }
}

/// The text of the error reported for a call the turn did not route.
pub open spec fn not_routed_message(name: Seq<char>) -> Seq<char> {
    "tool `"@ + name + "` was not routed for this turn"@
}

/// The text of the error reported for an allowed call that resolves to nothing.
pub open spec fn unmapped_message(name: Seq<char>) -> Seq<char> {
    "tool `"@ + name + "` was routed but no Root Function mapping exists"@
}

/// `{"error": message}`.
pub fn error_result(message: String) -> (v: JsonValue)
    ensures
        str_field(v, "error"@) == Some(message@),
        v matches JsonValue::Object(ms) && ms@.len() == 1,
{
    let m = member("error", string_value(message));
    let ghost gm = m;
    let mut ms: Vec<JsonMember> = Vec::new();
    ms.push(m);
    proof {
        assert(ms@ =~= seq![gm]);
        assert(ms@.drop_first() =~= Seq::<JsonMember>::empty());
    }
    JsonValue::Object(ms)
}

} // verus!
