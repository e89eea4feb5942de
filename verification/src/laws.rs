//! Properties of the library that span its functions.
use vstd::prelude::*;

use crate::agent_runner::{
    call_lines, complex_task, latest_call_lines, selected_flow, truncated_for_answer, turn_decisions, first_spec, has_route, insert_new, lemma_tool_name_prefix, plan_for, plan_step,
    root_function_tool_name, strings_view, turn_branch_id, PlanModel, ToolSpec,
};
use crate::agent_turn::{
    captured, finished_writebacks, merge_warning, usage_sums, AgentTurn, TurnStage,
};
use crate::intake::normalized_text;
use crate::session::{
    cli_key, component_text, or_default, path_component_text, path_components, telegram_key,
    web_key,
};
use crate::config::{parse_flow_mode_spec, AgentRuntimeConfig, FlowMode};
use crate::json::str_field;
use crate::numbers::decimal_text;
use crate::terminal::{blocked_reason, limited_output, truncation_marker};
use crate::text::{
    all_chars, ascii_lower, collapse, free_of, in_class, is_ascii_digit, is_ascii_lower,
    is_ascii_upper, join_with, lemma_collapse_idempotent, lemma_join_keeps,
    lemma_join_single_separated, lemma_nonempty_parts_keep, lemma_split_parts_keep,
    starts_with_seq, take_at_most,
    lemma_nonempty_parts_kept, lemma_split_after_separator, lemma_split_free,
    lemma_split_parts_free, map_char, map_seq, single_separated, split_class, trim_class, words,
    CharClass, CharMap,
};
use crate::thinkingroot_http::knowledge_status_of;
use crate::text::{contains_seq, lower_seq, occurs_at, trim_ws, utf8_len};
use crate::types::{AgentToolExecutionRecord, ThinkingRootKnowledgeStatus};

verus! {

/// Normalizing a query twice gives what normalizing it once gave: a
/// normalized query is left as it is.
pub proof fn law_normalization_is_idempotent(raw: Seq<char>)
    ensures
        normalized_text(normalized_text(raw)) == normalized_text(raw),
{
    lemma_collapse_idempotent(raw, CharClass::Whitespace, ' ');
}

/// A normalized query has no white space at either end, and each white
/// space inside it is one plain space between two other characters.
pub proof fn law_normalized_text_is_single_spaced(raw: Seq<char>)
    ensures
        single_separated(normalized_text(raw), ' ', CharClass::Whitespace),
{
    lemma_split_parts_free(raw, CharClass::Whitespace);
    lemma_nonempty_parts_kept(split_class(raw, CharClass::Whitespace), CharClass::Whitespace);
    lemma_join_single_separated(words(raw, CharClass::Whitespace), ' ', CharClass::Whitespace);
}

/// Session keys of different channels never coincide: each starts with
/// its channel's name.
pub proof fn law_session_keys_are_per_channel(
    profile: Seq<char>,
    cwd: Option<Seq<char>>,
    chat_id: Seq<char>,
    user_id: Option<Seq<char>>,
    web_profile: Seq<char>,
    client_session_id: Option<Seq<char>>,
)
    ensures
        cli_key(profile, cwd) != telegram_key(chat_id, user_id),
        cli_key(profile, cwd) != web_key(web_profile, client_session_id),
        telegram_key(chat_id, user_id) != web_key(web_profile, client_session_id),
{
    reveal_strlit("cli:");
    reveal_strlit("telegram:");
    reveal_strlit("web:");
    let c = cli_key(profile, cwd);
    let t = telegram_key(chat_id, user_id);
    let w = web_key(web_profile, client_session_id);
    assert(c[0] == 'c');
    assert(t[0] == 't');
    assert(w[0] == 'w');
}

/// `:` splits no part of a key: a part mapped by `component_text` holds none.
proof fn lemma_mapped_free(s: Seq<char>)
    ensures
        free_of(map_seq(CharMap::SpaceColonToUnderscore, s), CharClass::Exactly(':')),
{
    let m = map_seq(CharMap::SpaceColonToUnderscore, s);
    assert forall|i: int| 0 <= i < m.len() implies !in_class(CharClass::Exactly(':'), #[trigger] m[i]) by {
        assert(m[i] == map_char(CharMap::SpaceColonToUnderscore, s[i]));
    }
}

proof fn lemma_key_parts(channel: Seq<char>, a: Seq<char>, b: Seq<char>)
    requires
        free_of(channel, CharClass::Exactly(':')),
        free_of(a, CharClass::Exactly(':')),
        free_of(b, CharClass::Exactly(':')),
    ensures
        split_class(channel.push(':') + a + ":"@ + b, CharClass::Exactly(':')) == seq![channel, a, b],
{
    reveal_strlit(":");
    let k = CharClass::Exactly(':');
    lemma_split_free(channel, k);
    lemma_split_after_separator(channel, ':', a, k);
    let x = channel.push(':') + a;
    lemma_split_after_separator(x, ':', b, k);
    assert(x + ":"@ + b =~= x.push(':') + b);
    assert(seq![channel].push(a).push(b) =~= seq![channel, a, b]);
}

/// Each session key is three parts joined by `:`: its channel's name, then
/// two parts that hold no `:` themselves.
pub proof fn law_session_keys_have_three_parts(
    profile: Seq<char>,
    cwd: Option<Seq<char>>,
    chat_id: Seq<char>,
    user_id: Option<Seq<char>>,
    web_profile: Seq<char>,
    client_session_id: Option<Seq<char>>,
)
    ensures
        split_class(cli_key(profile, cwd), CharClass::Exactly(':')).len() == 3,
        split_class(cli_key(profile, cwd), CharClass::Exactly(':'))[0] == "cli"@,
        split_class(telegram_key(chat_id, user_id), CharClass::Exactly(':')).len() == 3,
        split_class(telegram_key(chat_id, user_id), CharClass::Exactly(':'))[0] == "telegram"@,
        split_class(web_key(web_profile, client_session_id), CharClass::Exactly(':')).len() == 3,
        split_class(web_key(web_profile, client_session_id), CharClass::Exactly(':'))[0] == "web"@,
{
    reveal_strlit("cli:");
    reveal_strlit("cli");
    reveal_strlit("telegram:");
    reveal_strlit("telegram");
    reveal_strlit("web:");
    reveal_strlit("web");
    reveal_strlit("unknown_cwd");
    reveal_strlit("unknown_user");
    reveal_strlit("browser");
    let k = CharClass::Exactly(':');
    assert("cli:"@ =~= "cli"@.push(':'));
    assert("telegram:"@ =~= "telegram"@.push(':'));
    assert("web:"@ =~= "web"@.push(':'));
    assert(free_of("cli"@, k));
    assert(free_of("telegram"@, k));
    assert(free_of("web"@, k));
    assert(free_of("unknown_cwd"@, k));
    assert(free_of("unknown_user"@, k));
    assert(free_of("browser"@, k));
    lemma_mapped_free(trim_ws(profile));
    lemma_mapped_free(trim_ws(chat_id));
    lemma_mapped_free(trim_ws(web_profile));
    let cwd_part = match cwd {
        Some(c) => or_default(path_component_text(c), "unknown_cwd"@),
        None => "unknown_cwd"@,
    };
    if let Some(c) = cwd {
        lemma_mapped_free(trim_class(join_with(path_components(c), seq!['/']), CharClass::Exactly('/')));
    }
    let user_part = match user_id {
        Some(u) => or_default(component_text(u), "unknown_user"@),
        None => "unknown_user"@,
    };
    if let Some(u) = user_id {
        lemma_mapped_free(trim_ws(u));
    }
    let session_part = match client_session_id {
        Some(s) => or_default(component_text(s), "browser"@),
        None => "browser"@,
    };
    if let Some(s) = client_session_id {
        lemma_mapped_free(trim_ws(s));
    }
    lemma_key_parts("cli"@, component_text(profile), cwd_part);
    lemma_key_parts("telegram"@, component_text(chat_id), user_part);
    lemma_key_parts("web"@, component_text(web_profile), session_part);
}

/// A command's kept output never exceeds the limit by more than the
/// truncation marker, and always begins with what the command wrote, up to
/// the limit.
pub proof fn law_output_is_bounded(bytes: Seq<u8>, max: nat)
    ensures
        limited_output(bytes, max).len() <= max + truncation_marker().len(),
        bytes.len() <= max ==> limited_output(bytes, max) == bytes,
        bytes.len() > max ==> limited_output(bytes, max).take(max as int) == bytes.take(max as int),
{
    if bytes.len() > max {
        assert(limited_output(bytes, max).take(max as int) =~= bytes.take(max as int));
    }
}

/// The OpenAI name under which a Root Function is offered starts with
/// `tr_` and is at most 64 characters long.
pub proof fn law_root_function_tool_names(function_name: Seq<char>)
    ensures
        root_function_tool_name(function_name).len() <= 64,
        root_function_tool_name(function_name).len() >= 3,
        root_function_tool_name(function_name).take(3) == "tr_"@,
{
    lemma_tool_name_prefix(function_name);
    reveal_strlit("tr_");
    let n = root_function_tool_name(function_name);
    assert(n.take(3) =~= "tr_"@);
}

/// A character a tool name may hold: a lower-case ASCII letter, a digit or `_`.
pub open spec fn is_tool_name_char(c: char) -> bool {
    is_ascii_lower(c) || is_ascii_digit(c) || c == '_'
}

/// No `_` in `s` is followed by another.
pub open spec fn has_no_doubled_underscore(s: Seq<char>) -> bool {
    forall|i: int| 0 <= i < s.len() - 1 && #[trigger] s[i] == '_' ==> s[i + 1] != '_'
}

/// The OpenAI name of a Root Function holds only lower-case ASCII letters,
/// digits and `_`, and never two `_` in a row.
pub proof fn law_root_function_tool_names_are_clean(function_name: Seq<char>)
    ensures
        all_chars(root_function_tool_name(function_name), |c: char| is_tool_name_char(c)),
        has_no_doubled_underscore(root_function_tool_name(function_name)),
{
    reveal_strlit("tr_");
    reveal_strlit("tr_root_function");
    let p = |c: char| is_tool_name_char(c);
    let k = CharClass::Exactly('_');
    let mapped = map_seq(CharMap::LowerWordElseUnderscore, function_name);
    assert forall|i: int| 0 <= i < mapped.len() implies p(#[trigger] mapped[i]) by {
        let c = function_name[i];
        assert(mapped[i] == map_char(CharMap::LowerWordElseUnderscore, c));
        if is_ascii_upper(c) {
            assert(is_ascii_lower(ascii_lower(c)));
        }
    }
    let s0 = "tr_"@ + mapped;
    assert forall|i: int| 0 <= i < s0.len() implies p(#[trigger] s0[i]) by {
        if i >= 3 {
            assert(s0[i] == mapped[i - 3]);
        }
    }
    lemma_split_parts_keep(s0, k, p);
    lemma_nonempty_parts_keep(split_class(s0, k), p);
    lemma_join_keeps(words(s0, k), '_', p);
    lemma_split_parts_free(s0, k);
    lemma_nonempty_parts_kept(split_class(s0, k), k);
    lemma_join_single_separated(words(s0, k), '_', k);
    let collapsed = collapse(s0, k, '_');
    assert(all_chars(collapsed, p));
    assert(single_separated(collapsed, '_', k));
    assert(has_no_doubled_underscore(collapsed)) by {
        assert forall|i: int| 0 <= i < collapsed.len() - 1 && #[trigger] collapsed[i] == '_' implies collapsed[i
            + 1] != '_' by {
            assert(in_class(k, collapsed[i]));
        }
    }
    let safe = if collapsed.len() == 0 {
        "tr_root_function"@
    } else if starts_with_seq(collapsed, "tr_"@) {
        collapsed
    } else {
        "tr_"@ + collapsed
    };
    if collapsed.len() == 0 {
        let t = "tr_root_function"@;
        assert(all_chars(t, p)) by {
            assert forall|i: int| 0 <= i < t.len() implies p(#[trigger] t[i]) by {}
        }
        assert(has_no_doubled_underscore(t)) by {
            assert forall|i: int| 0 <= i < t.len() - 1 && #[trigger] t[i] == '_' implies t[i + 1] != '_' by {}
        }
    } else if !starts_with_seq(collapsed, "tr_"@) {
        assert(!in_class(k, collapsed[0]));
        assert(all_chars(safe, p)) by {
            assert forall|i: int| 0 <= i < safe.len() implies p(#[trigger] safe[i]) by {
                if i >= 3 {
                    assert(safe[i] == collapsed[i - 3]);
                }
            }
        }
        assert(has_no_doubled_underscore(safe)) by {
            assert forall|i: int| 0 <= i < safe.len() - 1 && #[trigger] safe[i] == '_' implies safe[i + 1]
                != '_' by {
                if i >= 3 {
                    assert(safe[i] == collapsed[i - 3]);
                    assert(safe[i + 1] == collapsed[i - 2]);
                } else if i == 2 {
                    assert(safe[3] == collapsed[0]);
                }
            }
        }
    }
    assert(all_chars(safe, p));
    assert(has_no_doubled_underscore(safe));
    let n = take_at_most(safe, 64);
    assert(n == root_function_tool_name(function_name));
    if safe.len() > 64 {
        assert forall|i: int| 0 <= i < n.len() implies p(#[trigger] n[i]) by {
            assert(n[i] == safe[i]);
        }
        assert forall|i: int| 0 <= i < n.len() - 1 && #[trigger] n[i] == '_' implies n[i + 1] != '_' by {
            assert(n[i] == safe[i]);
            assert(n[i + 1] == safe[i + 1]);
        }
    }
}

/// Every branch a turn derives lies under `ownpager/`.
pub proof fn law_turn_branches_are_namespaced(agent_id: Seq<char>, request_id: Seq<char>, query: Seq<char>)
    ensures
        turn_branch_id(agent_id, request_id, query).take(9) == "ownpager/"@,
{
    reveal_strlit("ownpager/");
    let b = turn_branch_id(agent_id, request_id, query);
    assert(b.take(9) =~= "ownpager/"@);
}

/// In every state a turn reaches, it has called the model at most one time
/// more than its tool iteration limit.
pub proof fn law_model_calls_are_bounded(turn: AgentTurn)
    requires
        turn.inv(),
    ensures
        turn.usage.api_call_count <= turn.config.max_tool_iterations + 1,
{
}

/// A preparation counts as sufficient only with provenance and at least 80
/// bytes of memory; without provenance it is at best weak.
pub proof fn law_sufficient_knowledge_needs_provenance(memory: Seq<char>, provenance_count: nat)
    ensures
        knowledge_status_of(memory, provenance_count) == ThinkingRootKnowledgeStatus::Sufficient
            ==> provenance_count > 0 && utf8_len(trim_ws(memory)) >= 80,
        provenance_count == 0 ==> knowledge_status_of(memory, provenance_count)
            != ThinkingRootKnowledgeStatus::Sufficient,
{
}

/// With local execution disabled, no plan offers the terminal, whatever
/// names ThinkingRoot routes: a name that reaches a local tool only adds a
/// warning, and every Root Function is offered under a `tr_` name.
pub proof fn law_disabled_terminal_is_never_offered(specs: Seq<ToolSpec>, names: Seq<Seq<char>>)
    ensures
        forall|i: int|
            0 <= i < plan_for(specs, names, false).defs.len() ==> (#[trigger] plan_for(
                specs,
                names,
                false,
            ).defs[i]).0 != "terminal"@,
    decreases names.len(),
{
    if names.len() > 0 {
        law_disabled_terminal_is_never_offered(specs, names.drop_last());
        let m = plan_for(specs, names.drop_last(), false);
        let name = names.last();
        let n = plan_step(m, specs, name, false);
        assert(plan_for(specs, names, false) == n);
        reveal_strlit("terminal");
        match first_spec(specs, name) {
            Some(_) => {
                assert(n.defs == m.defs);
            },
            None => {
                let t = root_function_tool_name(name);
                lemma_tool_name_prefix(name);
                assert(t[1] == 'r');
                assert("terminal"@[1] == 'e');
                assert forall|i: int| 0 <= i < n.defs.len() implies (#[trigger] n.defs[i]).0
                    != "terminal"@ by {
                    if i < m.defs.len() {
                        if n.defs.len() > m.defs.len() {
                            assert(n.defs[i] == m.defs[i]);
                        }
                    } else {
                        assert(n.defs[i].0 == t);
                    }
                }
            },
        }
    }
}

/// No entry occurs twice.
pub open spec fn distinct_names(s: Seq<Seq<char>>) -> bool {
    forall|i: int, j: int| 0 <= i < j < s.len() ==> s[i] != s[j]
}

/// No two Root Function routes share an OpenAI tool name.
pub open spec fn distinct_routes(r: Seq<(Seq<char>, Seq<char>)>) -> bool {
    forall|i: int, j: int| 0 <= i < j < r.len() ==> r[i].0 != r[j].0
}

proof fn lemma_push_distinct(s: Seq<Seq<char>>, x: Seq<char>)
    requires
        distinct_names(s),
        !s.contains(x),
    ensures
        distinct_names(s.push(x)),
{
    let n = s.push(x);
    assert forall|i: int, j: int| 0 <= i < j < n.len() implies n[i] != n[j] by {
        if j == s.len() {
            assert(n[i] == s[i]);
            assert(s.contains(s[i]));
        } else {
            assert(n[i] == s[i] && n[j] == s[j]);
        }
    }
}

proof fn lemma_insert_new_distinct(s: Seq<Seq<char>>, x: Seq<char>)
    requires
        distinct_names(s),
    ensures
        distinct_names(insert_new(s, x)),
{
    if !s.contains(x) {
        lemma_push_distinct(s, x);
    }
}

proof fn lemma_step_distinct(m: PlanModel, specs: Seq<ToolSpec>, name: Seq<char>, allow_local: bool)
    requires
        distinct_names(m.allowed),
        distinct_routes(m.routes),
    ensures
        distinct_names(plan_step(m, specs, name, allow_local).allowed),
        distinct_routes(plan_step(m, specs, name, allow_local).routes),
{
    match first_spec(specs, name) {
        Some(k) => {
            if allow_local {
                let c = specs[k].canonical_name@;
                if !m.allowed.contains(c) {
                    lemma_push_distinct(m.allowed, c);
                    lemma_insert_new_distinct(m.allowed.push(c), name);
                } else {
                    lemma_insert_new_distinct(m.allowed, name);
                }
            }
        },
        None => {
            let t = root_function_tool_name(name);
            if !has_route(m.routes, t) && !m.allowed.contains(t) {
                lemma_push_distinct(m.allowed, t);
                let r = m.routes.push((t, name));
                assert forall|i: int, j: int| 0 <= i < j < r.len() implies r[i].0 != r[j].0 by {
                    if j == m.routes.len() {
                        assert(r[i] == m.routes[i]);
                    } else {
                        assert(r[i] == m.routes[i] && r[j] == m.routes[j]);
                    }
                }
            }
        },
    }
}

/// A plan allows each route name once, and resolves each OpenAI tool name
/// to at most one Root Function.
pub proof fn law_plans_have_no_duplicates(specs: Seq<ToolSpec>, names: Seq<Seq<char>>, allow_local: bool)
    ensures
        distinct_names(plan_for(specs, names, allow_local).allowed),
        distinct_routes(plan_for(specs, names, allow_local).routes),
    decreases names.len(),
{
    if names.len() > 0 {
        law_plans_have_no_duplicates(specs, names.drop_last(), allow_local);
        lemma_step_distinct(
            plan_for(specs, names.drop_last(), allow_local),
            specs,
            names.last(),
            allow_local,
        );
    }
}

/// A plan defines one tool per offered name, in the same order: the
/// terminal, or the Root Function under that name's OpenAI tool name.
pub proof fn law_plans_define_each_offered_name(specs: Seq<ToolSpec>, names: Seq<Seq<char>>, allow_local: bool)
    ensures
        plan_for(specs, names, allow_local).defs.len() == plan_for(specs, names, allow_local).available.len(),
        forall|i: int|
            0 <= i < plan_for(specs, names, allow_local).defs.len() ==> (#[trigger] plan_for(
                specs,
                names,
                allow_local,
            ).defs[i]).0 == "terminal"@ || plan_for(specs, names, allow_local).defs[i].0
                == root_function_tool_name(plan_for(specs, names, allow_local).available[i]),
    decreases names.len(),
{
    if names.len() > 0 {
        law_plans_define_each_offered_name(specs, names.drop_last(), allow_local);
        let m = plan_for(specs, names.drop_last(), allow_local);
        let n = plan_for(specs, names, allow_local);
        assert(n == plan_step(m, specs, names.last(), allow_local));
        assert forall|i: int| 0 <= i < n.defs.len() implies (#[trigger] n.defs[i]).0 == "terminal"@
            || n.defs[i].0 == root_function_tool_name(n.available[i]) by {
            if i < m.defs.len() {
                assert(n.defs[i] == m.defs[i]);
                assert(n.available[i] == m.available[i]);
            }
        }
    }
}

/// The last `k` calls, latest first, each with its number: its place,
/// counted from one, among all the calls.
pub open spec fn shown_calls(calls: Seq<AgentToolExecutionRecord>, k: nat) -> Seq<(AgentToolExecutionRecord, nat)> {
    Seq::new(k, |j: int| (calls[calls.len() - 1 - j], (calls.len() - j) as nat))
}

/// The lines of numbered calls, one block after another.
pub open spec fn blocks_of(shown: Seq<(AgentToolExecutionRecord, nat)>) -> Seq<Seq<char>>
    decreases shown.len(),
{
    if shown.len() == 0 {
        Seq::empty()
    } else {
        blocks_of(shown.drop_last()) + call_lines(shown.last().0, shown.last().1)
    }
}

/// The evidence of the partial answer given at the tool iteration limit
/// shows the last calls latest first, each numbered by its place among all
/// the turn's calls: the latest carries the number of calls, and each one
/// shown after it the number before.
pub proof fn law_partial_answer_numbers_calls_from_the_latest(
    calls: Seq<AgentToolExecutionRecord>,
    k: nat,
)
    requires
        k <= calls.len(),
    ensures
        latest_call_lines(calls, k) == blocks_of(shown_calls(calls, k)),
        forall|j: int|
            0 <= j < k ==> (#[trigger] shown_calls(calls, k)[j]).0 == calls[calls.len() - 1 - j]
                && shown_calls(calls, k)[j].1 == calls.len() - j,
    decreases k,
{
    if k > 0 {
        law_partial_answer_numbers_calls_from_the_latest(calls, (k - 1) as nat);
        assert(shown_calls(calls, k).drop_last() =~= shown_calls(calls, (k - 1) as nat));
    }
}

/// In every state a turn reaches, its token totals are the sums over the
/// model replies it took, one call per reply, at most one call more than
/// its tool iteration limit; the capsule's token estimate is the capsule's
/// own; and a turn that answered without a flow called the model at least
/// once.
pub proof fn law_turn_usage_sums_its_replies(turn: AgentTurn)
    requires
        turn.inv(),
    ensures
        usage_sums(turn.usage, turn.replies@),
        turn.replies@.len() <= turn.config.max_tool_iterations + 1,
        turn.capsule matches Some(c) ==> turn.usage.capsule_token_estimate == c.token_estimate,
        turn.stage == TurnStage::Finished && turn.flow_run is None ==> turn.replies@.len() >= 1,
{
}

/// A finished turn asked for exactly one store and then, when it ran on its
/// own branch, exactly one merge. Its branch was forked and checked out,
/// and either merged or left with the merge's error, which is also one of
/// its warnings.
pub proof fn law_finished_turns_store_once_then_merge_once(turn: AgentTurn)
    requires
        turn.inv(),
        turn.stage == TurnStage::Finished,
    ensures
        turn.writebacks@ == finished_writebacks(turn.config.branch_per_run),
        turn.branch_run is Some <==> turn.config.branch_per_run,
        turn.branch_run matches Some(b) ==> {
            &&& b.forked && b.checked_out
            &&& (b.merged <==> b.merge_error is None)
            &&& b.merge_error matches Some(e) ==> strings_view(turn.warnings@).contains(
                merge_warning(e@),
            )
        },
{
}

/// A query whose ASCII-lower-cased text names an explicit sequence of steps
/// (` then `, ` after that `, ` finally ` or `step by step`) is a complex
/// task: in `Auto` mode with a flow id set, that flow is selected for it.
pub proof fn law_explicit_sequences_select_the_flow(
    query: Seq<char>,
    marker: Seq<char>,
    i: int,
    config: AgentRuntimeConfig,
)
    requires
        marker == " then "@ || marker == " after that "@ || marker == " finally "@ || marker
            == "step by step"@,
        0 <= i,
        i + marker.len() <= lower_seq(query).len(),
        lower_seq(query).subrange(i, i + marker.len()) == marker,
    ensures
        complex_task(query),
        config.flow_mode == FlowMode::Auto && config.flow_id is Some ==> selected_flow(config, query)
            == Some(config.flow_id->0@),
{
    reveal(contains_seq);
    assert(occurs_at(lower_seq(query), marker, i));
}

/// One of the task words a multi-step request is recognised by.
pub open spec fn is_task_word(w: Seq<char>) -> bool {
    ||| w == "research"@
    ||| w == "competitor"@
    ||| w == "report"@
    ||| w == "email"@
    ||| w == "write"@
    ||| w == "summarize"@
    ||| w == "compare"@
    ||| w == "plan"@
    ||| w == "design"@
    ||| w == "implement"@
    ||| w == "analyze"@
}

/// A query whose ASCII-lower-cased text holds two different task words is
/// a complex task, whatever else it says.
pub proof fn law_two_task_words_make_a_complex_task(
    query: Seq<char>,
    w1: Seq<char>,
    i1: int,
    w2: Seq<char>,
    i2: int,
)
    requires
        is_task_word(w1),
        is_task_word(w2),
        w1 != w2,
        occurs_at(lower_seq(query), w1, i1),
        occurs_at(lower_seq(query), w2, i2),
    ensures
        complex_task(query),
{
    reveal(contains_seq);
    let n = lower_seq(query);
    assert(contains_seq(n, w1));
    assert(contains_seq(n, w2));
}

/// Whatever the query, `Off` never selects a flow, `Always` selects the
/// configured one, and without a flow id none is selected.
pub proof fn law_flow_modes_decide_selection(config: AgentRuntimeConfig, query: Seq<char>)
    ensures
        config.flow_id is None ==> selected_flow(config, query) is None,
        config.flow_mode == FlowMode::Off ==> selected_flow(config, query) is None,
        config.flow_mode == FlowMode::Always && config.flow_id is Some ==> selected_flow(
            config,
            query,
        ) == Some(config.flow_id->0@),
{
}

/// A flow-mode value that reads `off`, `0`, `false` or `disabled` (white
/// space around it and ASCII case aside) turns flows off; one that reads
/// `always`, `force`, `1` or `true` forces them; any other value leaves
/// the choice to the query.
pub proof fn law_flow_mode_words(value: Seq<char>)
    ensures
        lower_seq(trim_ws(value)) == "off"@ || lower_seq(trim_ws(value)) == "0"@ || lower_seq(
            trim_ws(value),
        ) == "false"@ || lower_seq(trim_ws(value)) == "disabled"@ ==> parse_flow_mode_spec(value)
            == FlowMode::Off,
        lower_seq(trim_ws(value)) == "always"@ || lower_seq(trim_ws(value)) == "force"@ || lower_seq(
            trim_ws(value),
        ) == "1"@ || lower_seq(trim_ws(value)) == "true"@ ==> parse_flow_mode_spec(value)
            == FlowMode::Always,
        !(lower_seq(trim_ws(value)) == "off"@ || lower_seq(trim_ws(value)) == "0"@ || lower_seq(
            trim_ws(value),
        ) == "false"@ || lower_seq(trim_ws(value)) == "disabled"@ || lower_seq(trim_ws(value))
            == "always"@ || lower_seq(trim_ws(value)) == "force"@ || lower_seq(trim_ws(value)) == "1"@
            || lower_seq(trim_ws(value)) == "true"@) ==> parse_flow_mode_spec(value) == FlowMode::Auto,
{
    reveal_strlit("off");
    reveal_strlit("0");
    reveal_strlit("false");
    reveal_strlit("disabled");
    reveal_strlit("always");
    reveal_strlit("force");
    reveal_strlit("1");
    reveal_strlit("true");
    let w = lower_seq(trim_ws(value));
    if w == "1"@ {
        assert(w[0] != "0"@[0]);
    }
    if w == "force"@ {
        assert(w[1] != "false"@[1]);
    }
    assert("off"@.len() == 3 && "0"@.len() == 1 && "false"@.len() == 5 && "disabled"@.len() == 8);
    assert("always"@.len() == 6 && "force"@.len() == 5 && "1"@.len() == 1 && "true"@.len() == 4);
}

/// The evidence listed for a tool call begins with its numbered title, and
/// ends with its error output when that is not blank: `Error output:` and
/// the trimmed text, cut to 800 characters. Otherwise, with non-blank
/// output, it ends with `Output:` and the trimmed output cut to 1200.
pub proof fn law_call_evidence_keeps_error_output(call: AgentToolExecutionRecord, number: nat)
    ensures
        call_lines(call, number).len() >= 1,
        call_lines(call, number)[0] == "\nTool call "@ + decimal_text(number) + ": "@ + call.tool_name@,
        match str_field(call.result, "stderr"@) {
            Some(s) => trim_ws(s).len() > 0 ==> call_lines(call, number).last() == "Error output:\n"@
                + truncated_for_answer(trim_ws(s), 800),
            None => true,
        },
        (match str_field(call.result, "stderr"@) {
            Some(s) => trim_ws(s).len() == 0,
            None => true,
        }) ==> match str_field(call.result, "stdout"@) {
            Some(o) => trim_ws(o).len() > 0 ==> call_lines(call, number).last() == "Output:\n"@
                + truncated_for_answer(trim_ws(o), 1200),
            None => true,
        },
{
}

/// Text cut for an answer keeps its first `max` characters and marks the
/// cut; text within the limit is kept whole.
pub proof fn law_answer_text_is_cut_and_marked(value: Seq<char>, max: nat)
    ensures
        value.len() <= max ==> truncated_for_answer(value, max) == value,
        value.len() > max ==> truncated_for_answer(value, max) == value.take(max as int) + "\n..."@,
{
}

/// The decisions captured after a turn: using tools is recorded first,
/// then working on a branch; a turn that did neither records none.
pub proof fn law_captured_decisions(used_tools: bool, branch_scoped: bool)
    ensures
        used_tools ==> turn_decisions(used_tools, branch_scoped).len() >= 1
            && turn_decisions(used_tools, branch_scoped)[0] == "Used routed tools to gather live evidence."@,
        branch_scoped ==> turn_decisions(used_tools, branch_scoped).len() >= 1
            && turn_decisions(used_tools, branch_scoped).last() == "Handled a branch-scoped turn request."@,
        turn_decisions(used_tools, branch_scoped).len() == (if used_tools { 1nat } else { 0nat }) + (
        if branch_scoped {
            1nat
        } else {
            0nat
        }),
{
}

/// A lower-cased command that holds any refused pattern is refused. Where
/// `curl` or `wget` is the first refused pattern it holds, the reason
/// names network exfiltration.
pub proof fn law_refused_patterns_block(n: Seq<char>, pattern: Seq<char>, i: int)
    requires
        pattern == "rm -rf /"@ || pattern == "sudo"@ || pattern == "mkfs"@ || pattern == "dd if="@
            || pattern == "chmod -r 777 /"@ || pattern == "chown -r"@ || pattern == ":(){"@ || pattern
            == ".ssh"@ || pattern == "id_rsa"@ || pattern == "id_ed25519"@ || pattern == ".env"@
            || pattern == "curl"@ || pattern == "wget"@,
        0 <= i,
        i + pattern.len() <= n.len(),
        n.subrange(i, i + pattern.len()) == pattern,
    ensures
        blocked_reason(n) is Some,
        (pattern == "curl"@ || pattern == "wget"@) && !(contains_seq(n, "rm -rf /"@) || contains_seq(
            n,
            "sudo"@,
        ) || contains_seq(n, "mkfs"@) || contains_seq(n, "dd if="@) || contains_seq(
            n,
            "chmod -r 777 /"@,
        ) || contains_seq(n, "chown -r"@) || contains_seq(n, ":(){"@) || contains_seq(n, ".ssh"@)
            || contains_seq(n, "id_rsa"@) || contains_seq(n, "id_ed25519"@) || contains_seq(
            n,
            ".env"@,
        )) ==> blocked_reason(n) == Some("network exfiltration-like commands are blocked for now"@),
{
    reveal(contains_seq);
    assert(occurs_at(n, pattern, i));
}

/// A finished turn has captured what its final answer says: the trimmed
/// answer as summary, its sentences as facts, and the decisions it took.
pub proof fn law_finished_turns_capture_their_answer(turn: AgentTurn)
    requires
        turn.inv(),
        turn.stage == TurnStage::Finished,
    ensures
        captured(turn, turn.final_answer@),
{
}

} // verus!
