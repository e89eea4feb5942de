//! What the library reads from an OpenAI Responses API reply.
use vstd::prelude::*;

use crate::json::{
    json_array, json_get, json_u64, member_value, opt_get, opt_or, opt_u64, str_field,
    JsonMember, JsonValue,
};
use crate::text::{chars_of, in_class, join_chars, join_with, push_str, string_of, trim_end_class, CharClass};

verus! {

/// A tool offered to the model: a name, a description and a JSON schema.
#[derive(Debug)]
pub struct OpenAiToolDefinition {
    pub name: String,
    pub description: String,
    pub parameters: JsonValue,
}

#[derive(Clone, Debug)]
pub struct OpenAiFunctionCall {
    pub call_id: String,
    pub name: String,
    pub arguments: String,
}

#[derive(Clone, Copy, Debug, PartialEq, Eq, Structural)]
pub struct OpenAiTokenUsage {
    pub input_tokens: usize,
    pub output_tokens: usize,
    pub cached_input_tokens: usize,
    pub reasoning_output_tokens: usize,
    pub total_tokens: usize,
}

#[derive(Debug)]
pub struct OpenAiResponse {
    pub output_text: String,
    pub output_items: Vec<JsonValue>,
    pub function_calls: Vec<OpenAiFunctionCall>,
    pub usage: Option<OpenAiTokenUsage>,
}

/// What the model is asked: the instructions, the input items so far and the tools it may call.
#[derive(Debug)]
pub struct OpenAiResponseRequest {
    pub instructions: String,
    pub input: Vec<JsonValue>,
    pub tools: Vec<OpenAiToolDefinition>,
}

/// A function call by its call id, name and argument text.
pub open spec fn call_view(c: OpenAiFunctionCall) -> (Seq<char>, Seq<char>, Seq<char>) {
    (c.call_id@, c.name@, c.arguments@)
}

pub open spec fn str_or(v: Option<Seq<char>>, default: Seq<char>) -> Seq<char> {
    match v {
        Some(s) => s,
        None => default,
    }
}

/// The function calls among the output items: items of type `function_call`,
/// each with its `call_id` and `name` (empty when missing) and its
/// `arguments` (`{}` when missing).
pub open spec fn function_calls_of(items: Seq<JsonValue>) -> Seq<(Seq<char>, Seq<char>, Seq<char>)>
    decreases items.len(),
{
    if items.len() == 0 {
        Seq::empty()
    } else {
        let r = function_calls_of(items.drop_last());
        let item = items.last();
        if str_field(item, "type"@) == Some("function_call"@) {
            r.push(
                (
                    str_or(str_field(item, "call_id"@), ""@),
                    str_or(str_field(item, "name"@), ""@),
                    str_or(str_field(item, "arguments"@), "{}"@),
                ),
            )
        } else {
            r
        }
    }
}

/// The texts of the `output_text` blocks of a content array.
pub open spec fn block_texts(blocks: Seq<JsonValue>) -> Seq<Seq<char>>
    decreases blocks.len(),
{
    if blocks.len() == 0 {
        Seq::empty()
    } else {
        let r = block_texts(blocks.drop_last());
        let b = blocks.last();
        if str_field(b, "type"@) == Some("output_text"@) && str_field(b, "text"@) is Some {
            r.push(str_field(b, "text"@)->0)
        } else {
            r
        }
    }
}

/// The `output_text` texts of the `message` items, in order.
pub open spec fn message_texts(items: Seq<JsonValue>) -> Seq<Seq<char>>
    decreases items.len(),
{
    if items.len() == 0 {
        Seq::empty()
    } else {
        let r = message_texts(items.drop_last());
        let item = items.last();
        if str_field(item, "type"@) == Some("message"@) {
            match json_get(item, "content"@) {
                Some(c) => match json_array(c) {
                    Some(blocks) => r + block_texts(blocks),
                    None => r,
                },
                None => r,
            }
        } else {
            r
        }
    }
}

/// The message texts joined with newlines, when there is any.
pub open spec fn output_text_of(items: Seq<JsonValue>) -> Option<Seq<char>> {
    if message_texts(items).len() == 0 {
        None
    } else {
        Some(join_with(message_texts(items), "\n"@))
    }
}

/// `get(a).or_else(|| get(b))`.
pub open spec fn get_either(v: JsonValue, a: Seq<char>, b: Seq<char>) -> Option<JsonValue> {
    opt_or(json_get(v, a), json_get(v, b))
}

pub open spec fn count_or_zero(n: Option<u64>) -> nat {
    match n {
        Some(x) => (x as usize) as nat,
        None => 0,
    }
}

pub open spec fn raw_input_tokens(u: JsonValue) -> nat {
    count_or_zero(opt_u64(get_either(u, "input_tokens"@, "prompt_tokens"@)))
}

pub open spec fn raw_output_tokens(u: JsonValue) -> nat {
    count_or_zero(opt_u64(get_either(u, "output_tokens"@, "completion_tokens"@)))
}

pub open spec fn cached_tokens(u: JsonValue) -> nat {
    let details = get_either(u, "input_tokens_details"@, "prompt_tokens_details"@);
    let c = match details {
        Some(d) => get_either(d, "cached_tokens"@, "cache_read_tokens"@),
        None => None,
    };
    count_or_zero(opt_u64(c))
}

pub open spec fn reasoning_tokens(u: JsonValue) -> nat {
    let details = get_either(u, "output_tokens_details"@, "completion_tokens_details"@);
    count_or_zero(opt_u64(opt_get(details, "reasoning_tokens"@)))
}

/// Whether the usage counts can be added up without overflow: the sum of
/// input and output tokens is only taken when `total_tokens` is missing.
pub open spec fn usage_fits(u: JsonValue) -> bool {
    opt_u64(json_get(u, "total_tokens"@)) is None ==> raw_input_tokens(u) + raw_output_tokens(u)
        <= usize::MAX
}

/// The token usage a `usage` object reports. Input tokens exclude the cached ones.
pub open spec fn usage_of(u: JsonValue) -> OpenAiTokenUsage {
    let input = raw_input_tokens(u);
    let output = raw_output_tokens(u);
    let cached = cached_tokens(u);
    OpenAiTokenUsage {
        input_tokens: (if input >= cached {
            input - cached
        } else {
            0
        }) as usize,
        output_tokens: output as usize,
        cached_input_tokens: cached as usize,
        reasoning_output_tokens: reasoning_tokens(u) as usize,
        total_tokens: (match opt_u64(json_get(u, "total_tokens"@)) {
            Some(t) => (t as usize) as nat,
            None => input + output,
        }) as usize,
    }
}

fn get_either_exec<'a>(v: &'a JsonValue, a: &str, b: &str) -> (r: Option<&'a JsonValue>)
    ensures
        match r {
            Some(x) => get_either(*v, a@, b@) == Some(*x),
            None => get_either(*v, a@, b@) is None,
        },
{
    match v.get(a) {
        Some(x) => Some(x),
        None => v.get(b),
    }
}

fn count_of(x: Option<&JsonValue>) -> (n: usize)
    ensures
        n == count_or_zero(
            match x {
                Some(v) => json_u64(*v),
                None => None,
            },
        ),
{
    match x {
        Some(v) => match v.as_u64() {
            Some(k) => k as usize,
            None => 0,
        },
        None => 0,
    }
}

/// The token usage of a reply's `usage` member, when there is one.
pub fn parse_token_usage(value: Option<&JsonValue>) -> (r: Option<OpenAiTokenUsage>)
    requires
        value matches Some(u) ==> usage_fits(*u),
    ensures
        value is None ==> r is None,
        value matches Some(u) ==> r == Some(usage_of(*u)),
{
    let usage = match value {
        Some(u) => u,
        None => return None,
    };
    let input_tokens = count_of(get_either_exec(usage, "input_tokens", "prompt_tokens"));
    let output_tokens = count_of(get_either_exec(usage, "output_tokens", "completion_tokens"));
    let cached_input_tokens = match get_either_exec(
        usage,
        "input_tokens_details",
        "prompt_tokens_details",
    ) {
        Some(d) => count_of(get_either_exec(d, "cached_tokens", "cache_read_tokens")),
        None => 0,
    };
    let reasoning_output_tokens = match get_either_exec(
        usage,
        "output_tokens_details",
        "completion_tokens_details",
    ) {
        Some(d) => count_of(d.get("reasoning_tokens")),
        None => 0,
    };
    let total_tokens = match usage.get("total_tokens") {
        Some(t) => match t.as_u64() {
            Some(k) => k as usize,
            None => input_tokens + output_tokens,
        },
        None => input_tokens + output_tokens,
    };
    Some(
        OpenAiTokenUsage {
            input_tokens: if input_tokens >= cached_input_tokens {
                input_tokens - cached_input_tokens
            } else {
                0
            },
            output_tokens,
            cached_input_tokens,
            reasoning_output_tokens,
            total_tokens,
        },
    )
}

fn literal(s: &str) -> (r: String)
    ensures
        r@ == s@,
{
    string_of(&chars_of(s))
}

fn str_field_or(item: &JsonValue, key: &str, default: &str) -> (r: String)
    ensures
        r@ == str_or(str_field(*item, key@), default@),
{
    match item.str_field(key) {
        Some(s) => s.clone(),
        None => literal(default),
    }
}

fn is_type(item: &JsonValue, expected: &str) -> (b: bool)
    ensures
        b == (str_field(*item, "type"@) == Some(expected@)),
{
    match item.str_field("type") {
        Some(t) => crate::text::same_text(t.as_str(), expected),
        None => false,
    }
}

fn function_calls(items: &Vec<JsonValue>) -> (r: Vec<OpenAiFunctionCall>)
    ensures
        r@.map_values(|c: OpenAiFunctionCall| call_view(c)) == function_calls_of(items@),
{
    let mut r: Vec<OpenAiFunctionCall> = Vec::new();
    let mut i: usize = 0;
    assert(items@.take(0) =~= Seq::<JsonValue>::empty());
    assert(r@.map_values(|c: OpenAiFunctionCall| call_view(c)) =~= Seq::empty());
    while i < items.len()
        invariant
            i <= items.len(),
            r@.map_values(|c: OpenAiFunctionCall| call_view(c)) == function_calls_of(
                items@.take(i as int),
            ),
        decreases items.len() - i,
    {
        let item = &items[i];
        assert(items@.take(i + 1).drop_last() =~= items@.take(i as int));
        assert(items@.take(i + 1).last() == items@[i as int]);
        if is_type(item, "function_call") {
            let call = OpenAiFunctionCall {
                call_id: str_field_or(item, "call_id", ""),
                name: str_field_or(item, "name", ""),
                arguments: str_field_or(item, "arguments", "{}"),
            };
            let ghost before = r@;
            r.push(call);
            assert(r@.map_values(|c: OpenAiFunctionCall| call_view(c)) =~= before.map_values(
                |c: OpenAiFunctionCall| call_view(c),
            ).push(call_view(call)));
        }
        i = i + 1;
    }
    assert(items@.take(items.len() as int) =~= items@);
    r
}

fn block_texts_exec(blocks: &Vec<JsonValue>, parts: &mut Vec<Vec<char>>)
    ensures
        final(parts).deep_view() == old(parts).deep_view() + block_texts(blocks@),
{
    let mut i: usize = 0;
    assert(blocks@.take(0) =~= Seq::<JsonValue>::empty());
    assert(old(parts).deep_view() + Seq::<Seq<char>>::empty() =~= old(parts).deep_view());
    while i < blocks.len()
        invariant
            i <= blocks.len(),
            parts.deep_view() == old(parts).deep_view() + block_texts(blocks@.take(i as int)),
        decreases blocks.len() - i,
    {
        let b = &blocks[i];
        assert(blocks@.take(i + 1).drop_last() =~= blocks@.take(i as int));
        assert(blocks@.take(i + 1).last() == blocks@[i as int]);
        if is_type(b, "output_text") {
            match b.str_field("text") {
                Some(t) => {
                    let v = chars_of(t.as_str());
                    let ghost before = parts.deep_view();
                    proof {
                        crate::text::lemma_char_vec_deep(v);
                    }
                    parts.push(v);
                    assert(parts.deep_view() =~= before.push(t@));
                    assert(old(parts).deep_view() + block_texts(blocks@.take(i + 1)) =~= (old(
                        parts,
                    ).deep_view() + block_texts(blocks@.take(i as int))).push(t@));
                },
                None => {},
            }
        }
        i = i + 1;
    }
    assert(blocks@.take(blocks.len() as int) =~= blocks@);
}

/// The `output_text` texts of the `message` items joined with newlines, when there is any.
pub fn extract_output_text(output_items: &Vec<JsonValue>) -> (r: Option<String>)
    ensures
        match r {
            Some(s) => output_text_of(output_items@) == Some(s@),
            None => output_text_of(output_items@) is None,
        },
{
    let mut parts: Vec<Vec<char>> = Vec::new();
    let mut i: usize = 0;
    assert(output_items@.take(0) =~= Seq::<JsonValue>::empty());
    assert(parts.deep_view() =~= Seq::<Seq<char>>::empty());
    while i < output_items.len()
        invariant
            i <= output_items.len(),
            parts.deep_view() == message_texts(output_items@.take(i as int)),
        decreases output_items.len() - i,
    {
        let item = &output_items[i];
        assert(output_items@.take(i + 1).drop_last() =~= output_items@.take(i as int));
        assert(output_items@.take(i + 1).last() == output_items@[i as int]);
        if is_type(item, "message") {
            match item.get("content") {
                Some(c) => match c.as_array() {
                    Some(blocks) => {
                        block_texts_exec(blocks, &mut parts);
                    },
                    None => {},
                },
                None => {},
            }
        }
        i = i + 1;
    }
    assert(output_items@.take(output_items.len() as int) =~= output_items@);
    if parts.len() == 0 {
        None
    } else {
        let mut sep: Vec<char> = Vec::new();
        sep.push('\n');
        assert(sep@ =~= "\n"@) by {
            reveal_strlit("\n");
        }
        let joined = join_chars(&parts, &sep);
        Some(string_of(&joined))
    }
}

/// The items of the reply's `output` array (empty when there is none).
pub open spec fn output_items_of(value: JsonValue) -> Seq<JsonValue> {
    match json_get(value, "output"@) {
        Some(o) => match json_array(o) {
            Some(items) => items,
            None => Seq::empty(),
        },
        None => Seq::empty(),
    }
}

fn take_output_items(value: JsonValue) -> (r: Vec<JsonValue>)
    ensures
        r@ == output_items_of(value),
{
    let ghost v0 = value;
    match value {
        JsonValue::Object(mut ms) => {
            let mut i: usize = 0;
            let ghost all = ms@;
            assert(all.subrange(0, all.len() as int) =~= all);
            assert(json_get(v0, "output"@) == member_value(all, "output"@));
            while i < ms.len()
                invariant
                    i <= ms.len(),
                    ms@ == all,
                    json_get(v0, "output"@) == member_value(all, "output"@),
                    v0 == value,
                    member_value(all, "output"@) == member_value(
                        all.subrange(i as int, all.len() as int),
                        "output"@,
                    ),
                decreases ms.len() - i,
            {
                let ghost rest = all.subrange(i as int, all.len() as int);
                assert(rest[0] == all[i as int]);
                if crate::text::same_text(ms[i].key.as_str(), "output") {
                    assert(member_value(rest, "output"@) == Some(all[i as int].value));
                    assert(json_get(v0, "output"@) == member_value(all, "output"@));
                    let m: JsonMember = ms.remove(i);
                    assert(m == all[i as int]);
                    return match m.value {
                        JsonValue::Array(items) => items,
                        _ => Vec::new(),
                    };
                }
                assert(rest.drop_first() =~= all.subrange(i + 1, all.len() as int));
                i = i + 1;
            }
            Vec::new()
        },
        _ => Vec::new(),
    }
}

/// What the library reads from a reply: the output text (the top-level
/// `output_text`, else the message texts, else empty), the output items, the
/// function calls among them and the token usage.
pub fn parse_openai_response(value: JsonValue) -> (r: OpenAiResponse)
    requires
        json_get(value, "usage"@) matches Some(u) ==> usage_fits(u),
    ensures
        r.output_items@ == output_items_of(value),
        r.output_text@ == match str_field(value, "output_text"@) {
            Some(t) => t,
            None => match output_text_of(output_items_of(value)) {
                Some(t) => t,
                None => Seq::empty(),
            },
        },
        r.function_calls@.map_values(|c: OpenAiFunctionCall| call_view(c)) == function_calls_of(
            output_items_of(value),
        ),
        r.usage == match json_get(value, "usage"@) {
            Some(u) => Some(usage_of(u)),
            None => None,
        },
{
    let usage = parse_token_usage(value.get("usage"));
    let top_text: Option<String> = match value.str_field("output_text") {
        Some(t) => Some(t.clone()),
        None => None,
    };
    let output_items = take_output_items(value);
    let output_text = match top_text {
        Some(t) => t,
        None => match extract_output_text(&output_items) {
            Some(t) => t,
            None => String::new(),
        },
    };
    let function_calls = function_calls(&output_items);
    OpenAiResponse { output_text, output_items, function_calls, usage }
}

/// Whether a reply's token usage can be read: its counts add up within
/// `usize` wherever they are added.
pub fn usage_is_readable(value: &JsonValue) -> (b: bool)
    ensures
        b == (json_get(*value, "usage"@) matches Some(u) ==> usage_fits(u)),
{
    match value.get("usage") {
        None => true,
        Some(u) => {
            if u.get("total_tokens").is_some() && u.get("total_tokens").unwrap().as_u64().is_some() {
                return true;
            }
            let input = count_of(get_either_exec(u, "input_tokens", "prompt_tokens"));
            let output = count_of(get_either_exec(u, "output_tokens", "completion_tokens"));
            input.checked_add(output).is_some()
        },
    }
}

proof fn lemma_trim_end_prefix(s: Seq<char>, k: CharClass, n: int)
    requires
        0 <= n <= s.len(),
        forall|i: int| n <= i < s.len() ==> in_class(k, #[trigger] s[i]),
        n == 0 || !in_class(k, s[n - 1]),
    ensures
        trim_end_class(s, k) == s.take(n),
    decreases s.len(),
{
    if s.len() > n {
        assert(in_class(k, s[s.len() - 1]));
        let d = s.drop_last();
        assert forall|i: int| n <= i < d.len() implies in_class(k, #[trigger] d[i]) by {
            assert(d[i] == s[i]);
        }
        if n > 0 {
            assert(d[n - 1] == s[n - 1]);
        }
        lemma_trim_end_prefix(d, k, n);
        assert(d.take(n) =~= s.take(n));
    } else {
        assert(s.take(n) =~= s);
        if s.len() > 0 {
            assert(s.last() == s[n - 1]);
        }
    }
}

/// The Responses endpoint under a base URL: trailing `/` removed, then `/responses`.
pub fn responses_url(base_url: &str) -> (r: String)
    ensures
        r@ == trim_end_class(base_url@, CharClass::Exactly('/')) + "/responses"@,
{
    let v = chars_of(base_url);
    let mut n: usize = v.len();
    while n > 0 && v[n - 1] == '/'
        invariant
            n <= v@.len(),
            forall|i: int| n <= i < v@.len() ==> v@[i] == '/',
        decreases n,
    {
        n = n - 1;
    }
    proof {
        lemma_trim_end_prefix(v@, CharClass::Exactly('/'), n as int);
    }
    let mut r: Vec<char> = Vec::new();
    let mut i: usize = 0;
    while i < n
        invariant
            i <= n <= v@.len(),
            r@ == v@.take(i as int),
        decreases n - i,
    {
        r.push(v[i]);
        assert(v@.take(i + 1) =~= v@.take(i as int).push(v@[i as int]));
        i = i + 1;
    }
    push_str(&mut r, "/responses");
    string_of(&r)
}

} // verus!
