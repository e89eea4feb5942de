//! Runtime configuration read from environment variables.
use vstd::prelude::*;

use crate::numbers::{parse_decimal, parse_unsigned};
use crate::text::{
    chars_eq_str, chars_of, lower_chars, lower_seq, push_str, same_text, string_of, trim_chars,
    trim_ws, CharClass,
};

verus! {

#[derive(Clone, Debug)]
pub struct AppConfig {
    pub default_workspace: Option<String>,
    pub thinkingroot: ThinkingRootRuntimeConfig,
    pub openai: OpenAiRuntimeConfig,
    pub agent: AgentRuntimeConfig,
}

#[derive(Clone, Debug)]
pub struct ThinkingRootRuntimeConfig {
    pub gateway_url: String,
    pub project_key: Option<String>,
    pub workspace: String,
    pub default_agent_id: String,
    pub prompt_name: String,
    pub top_k: usize,
    pub max_tools: usize,
    pub node_binary: String,
    pub sdk_bridge_script: String,
}

#[derive(Clone, Debug)]
pub struct OpenAiRuntimeConfig {
    pub api_key: String,
    pub base_url: String,
    pub model: String,
    pub timeout_seconds: u64,
}

#[derive(Clone, Debug)]
pub struct AgentRuntimeConfig {
    pub max_tool_iterations: usize,
    pub routed_tool_top_k: usize,
    pub terminal_timeout_seconds: u64,
    pub terminal_max_output_bytes: usize,
    pub allow_local_terminal: bool,
    pub branch_per_run: bool,
    pub branch_parent: String,
    pub branch_merge_policy: Option<String>,
    pub flow_id: Option<String>,
    pub flow_mode: FlowMode,
    pub flow_poll_interval_ms: u64,
    pub flow_timeout_seconds: u64,
}

#[derive(Clone, Copy, Debug, PartialEq, Eq, Structural)]
pub enum FlowMode {
    Off,
    Auto,
    Always,
}

/// One environment variable that is set and holds valid Unicode.
#[derive(Clone, Debug)]
pub struct EnvEntry {
    pub name: String,
    pub value: String,
}

/// The value of the first entry named `key`.
pub open spec fn env_value(vars: Seq<EnvEntry>, key: Seq<char>) -> Option<Seq<char>>
    decreases vars.len(),
{
    if vars.len() == 0 {
        None
    } else if vars[0].name@ == key {
        Some(vars[0].value@)
    } else {
        env_value(vars.drop_first(), key)
    }
}

/// The trimmed value when it is not blank.
pub open spec fn trimmed_nonblank(v: Option<Seq<char>>) -> Option<Seq<char>> {
    match v {
        Some(x) => if trim_ws(x).len() > 0 {
            Some(trim_ws(x))
        } else {
            None
        },
        None => None,
    }
}

/// The trimmed value of `key` when set and not blank, else `default`.
pub open spec fn env_or_default_spec(vars: Seq<EnvEntry>, key: Seq<char>, default: Seq<char>) -> Seq<
    char,
> {
    match trimmed_nonblank(env_value(vars, key)) {
        Some(v) => v,
        None => default,
    }
}

/// The value of `key` parsed as an unsigned integer no larger than `max`, else `default`.
pub open spec fn env_number(vars: Seq<EnvEntry>, key: Seq<char>, max: nat, default: nat) -> nat {
    match env_value(vars, key) {
        Some(v) => match parse_unsigned(v, max) {
            Some(n) => n,
            None => default,
        },
        None => default,
    }
}

pub open spec fn is_true_word(s: Seq<char>) -> bool {
    s == "1"@ || s == "true"@ || s == "yes"@ || s == "y"@ || s == "on"@
}

/// Whether a flag value reads as true: `1`, `true`, `yes`, `y` or `on`, ignoring case and surrounding white space.
pub open spec fn parse_bool_spec(value: Seq<char>) -> bool {
    is_true_word(lower_seq(trim_ws(value)))
}

/// The flow mode a value names; anything unrecognised means `Auto`.
pub open spec fn parse_flow_mode_spec(value: Seq<char>) -> FlowMode {
    let v = lower_seq(trim_ws(value));
    if v == "off"@ || v == "0"@ || v == "false"@ || v == "disabled"@ {
        FlowMode::Off
    } else if v == "always"@ || v == "force"@ || v == "1"@ || v == "true"@ {
        FlowMode::Always
    } else {
        FlowMode::Auto
    }
}

pub open spec fn env_flag(vars: Seq<EnvEntry>, key: Seq<char>, default: bool) -> bool {
    match env_value(vars, key) {
        Some(v) => parse_bool_spec(v),
        None => default,
    }
}

fn find_env<'a>(vars: &'a Vec<EnvEntry>, key: &str) -> (r: Option<&'a String>)
    ensures
        match r {
            Some(v) => env_value(vars@, key@) == Some(v@),
            None => env_value(vars@, key@) is None,
        },
{
    let mut i: usize = 0;
    assert(vars@.subrange(0, vars@.len() as int) =~= vars@);
    while i < vars.len()
        invariant
            i <= vars.len(),
            env_value(vars@, key@) == env_value(vars@.subrange(i as int, vars@.len() as int), key@),
        decreases vars.len() - i,
    {
        let ghost rest = vars@.subrange(i as int, vars@.len() as int);
        assert(rest[0] == vars@[i as int]);
        if same_text(vars[i].name.as_str(), key) {
            return Some(&vars[i].value);
        }
        assert(rest.drop_first() =~= vars@.subrange(i + 1, vars@.len() as int));
        i = i + 1;
    }
    None
}

fn trimmed_value(vars: &Vec<EnvEntry>, key: &str) -> (r: Option<String>)
    ensures
        opt_chars(r) == trimmed_nonblank(env_value(vars@, key@)),
{
    match find_env(vars, key) {
        Some(v) => {
            let t = trim_chars(&chars_of(v.as_str()), CharClass::Whitespace);
            if t.len() > 0 {
                Some(string_of(&t))
            } else {
                None
            }
        },
        None => None,
    }
}

pub open spec fn opt_chars(o: Option<String>) -> Option<Seq<char>> {
    match o {
        Some(s) => Some(s@),
        None => None,
    }
}

/// The trimmed value of `key` when it is set and not blank, else `default`.
pub fn env_or_default(vars: &Vec<EnvEntry>, key: &str, default: String) -> (r: String)
    ensures
        r@ == env_or_default_spec(vars@, key@, default@),
{
    match trimmed_value(vars, key) {
        Some(v) => v,
        None => default,
    }
}

fn env_unsigned(vars: &Vec<EnvEntry>, key: &str, max: u64, default: u64) -> (r: u64)
    requires
        default <= max,
    ensures
        r == env_number(vars@, key@, max as nat, default as nat),
        r <= max,
{
    match find_env(vars, key) {
        Some(v) => match parse_decimal(&chars_of(v.as_str()), max) {
            Some(n) => n,
            None => default,
        },
        None => default,
    }
}

fn env_usize(vars: &Vec<EnvEntry>, key: &str, default: usize) -> (r: usize)
    ensures
        r == env_number(vars@, key@, usize::MAX as nat, default as nat),
{
    env_unsigned(vars, key, usize::MAX as u64, default as u64) as usize
}

fn env_bool(vars: &Vec<EnvEntry>, key: &str, default: bool) -> (r: bool)
    ensures
        r == env_flag(vars@, key@, default),
{
    match find_env(vars, key) {
        Some(v) => parse_bool(v.as_str()),
        None => default,
    }
}

/// Whether a flag value reads as true.
pub fn parse_bool(value: &str) -> (b: bool)
    ensures
        b == parse_bool_spec(value@),
{
    let v = lower_chars(&trim_chars(&chars_of(value), CharClass::Whitespace));
    chars_eq_str(&v, "1") || chars_eq_str(&v, "true") || chars_eq_str(&v, "yes") || chars_eq_str(
        &v,
        "y",
    ) || chars_eq_str(&v, "on")
}

/// The flow mode a value names.
pub fn parse_flow_mode(value: &str) -> (m: FlowMode)
    ensures
        m == parse_flow_mode_spec(value@),
{
    let v = lower_chars(&trim_chars(&chars_of(value), CharClass::Whitespace));
    if chars_eq_str(&v, "off") || chars_eq_str(&v, "0") || chars_eq_str(&v, "false")
        || chars_eq_str(&v, "disabled") {
        FlowMode::Off
    } else if chars_eq_str(&v, "always") || chars_eq_str(&v, "force") || chars_eq_str(&v, "1")
        || chars_eq_str(&v, "true") {
        FlowMode::Always
    } else {
        FlowMode::Auto
    }
}

fn literal(s: &str) -> (r: String)
    ensures
        r@ == s@,
{
    string_of(&chars_of(s))
}

/// The OpenAI settings the environment gives: the key as set, the base URL
/// and model (else their defaults), and the timeout (else 60 seconds).
pub open spec fn openai_settings(vars: Seq<EnvEntry>, c: OpenAiRuntimeConfig) -> bool {
    &&& env_value(vars, "OPENAI_API_KEY"@) == Some(c.api_key@)
    &&& c.base_url@ == env_or_default_spec(vars, "OPENAI_BASE_URL"@, "https://api.openai.com/v1"@)
    &&& c.model@ == env_or_default_spec(vars, "OPENAI_MODEL"@, "gpt-4.1-mini"@)
    &&& c.timeout_seconds == env_number(vars, "OPENAI_TIMEOUT_SECONDS"@, u64::MAX as nat, 60)
}

impl OpenAiRuntimeConfig {
    /// The OpenAI settings; refused when `OPENAI_API_KEY` is unset or blank.
    pub fn from_vars(vars: &Vec<EnvEntry>) -> (r: Result<OpenAiRuntimeConfig, String>)
        ensures
            r is Ok <==> (env_value(vars@, "OPENAI_API_KEY"@) matches Some(k) && trim_ws(k).len()
                > 0),
            r matches Err(e) ==> e@ == "OPENAI_API_KEY is required for full agent turns"@,
            r matches Ok(c) ==> openai_settings(vars@, c),
    {
        let api_key = match find_env(vars, "OPENAI_API_KEY") {
            Some(k) => k.clone(),
            None => return Err(literal("OPENAI_API_KEY is required for full agent turns")),
        };
        if trim_chars(&chars_of(api_key.as_str()), CharClass::Whitespace).len() == 0 {
            return Err(literal("OPENAI_API_KEY is required for full agent turns"));
        }
        Ok(
            OpenAiRuntimeConfig {
                api_key,
                base_url: env_or_default(
                    vars,
                    "OPENAI_BASE_URL",
                    literal("https://api.openai.com/v1"),
                ),
                model: env_or_default(vars, "OPENAI_MODEL", literal("gpt-4.1-mini")),
                timeout_seconds: env_unsigned(vars, "OPENAI_TIMEOUT_SECONDS", u64::MAX, 60),
            },
        )
    }
}

/// The path of the SDK bridge script under the given manifest directory.
pub open spec fn default_bridge_script(manifest_dir: Seq<char>) -> Seq<char> {
    manifest_dir + "/scripts/thinkingroot_sdk_bridge.mjs"@
}

impl AppConfig {
    /// The whole configuration from the environment `vars`; only the OpenAI
    /// settings can refuse.
    pub fn from_vars(default_workspace: Option<String>, vars: &Vec<EnvEntry>, manifest_dir: &str) -> (r:
        Result<AppConfig, String>)
        ensures
            r is Ok <==> (env_value(vars@, "OPENAI_API_KEY"@) matches Some(k) && trim_ws(k).len()
                > 0),
            r matches Err(e) ==> e@ == "OPENAI_API_KEY is required for full agent turns"@,
            r matches Ok(c) ==> {
                let t = c.thinkingroot;
                let a = c.agent;
                &&& c.default_workspace == default_workspace
                &&& openai_settings(vars@, c.openai)
                &&& t.gateway_url@ == env_or_default_spec(
                    vars@,
                    "THINKINGROOT_GATEWAY_URL"@,
                    env_or_default_spec(
                        vars@,
                        "THINKINGROOT_BASE_URL"@,
                        "http://127.0.0.1:3001"@,
                    ),
                )
                &&& opt_chars(t.project_key) == trimmed_nonblank(
                    match env_value(vars@, "THINKINGROOT_PROJECT_KEY"@) {
                        Some(v) => Some(v),
                        None => env_value(vars@, "THINKINGROOT_API_KEY"@),
                    },
                )
                &&& t.workspace@ == env_or_default_spec(
                    vars@,
                    "THINKINGROOT_WORKSPACE"@,
                    match default_workspace {
                        Some(w) => w@,
                        None => "ownpager"@,
                    },
                )
                &&& t.default_agent_id@ == env_or_default_spec(
                    vars@,
                    "OWNPAGER_DEFAULT_AGENT_ID"@,
                    "ownpager"@,
                )
                &&& t.prompt_name@ == env_or_default_spec(vars@, "THINKINGROOT_PROMPT_NAME"@, "main"@)
                &&& t.top_k == env_number(vars@, "THINKINGROOT_TOP_K"@, usize::MAX as nat, 6)
                &&& t.max_tools == env_number(vars@, "THINKINGROOT_MAX_TOOLS"@, usize::MAX as nat, 4)
                &&& t.node_binary@ == env_or_default_spec(vars@, "OWNPAGER_NODE_BINARY"@, "node"@)
                &&& t.sdk_bridge_script@ == env_or_default_spec(
                    vars@,
                    "OWNPAGER_THINKINGROOT_SDK_BRIDGE"@,
                    default_bridge_script(manifest_dir@),
                )
                &&& a.max_tool_iterations == env_number(
                    vars@,
                    "OWNPAGER_MAX_TOOL_ITERATIONS"@,
                    usize::MAX as nat,
                    3,
                )
                &&& a.routed_tool_top_k == env_number(
                    vars@,
                    "OWNPAGER_ROUTED_TOOL_TOP_K"@,
                    usize::MAX as nat,
                    8,
                )
                &&& a.terminal_timeout_seconds == env_number(
                    vars@,
                    "OWNPAGER_TERMINAL_TIMEOUT_SECONDS"@,
                    u64::MAX as nat,
                    30,
                )
                &&& a.terminal_max_output_bytes == env_number(
                    vars@,
                    "OWNPAGER_TERMINAL_MAX_OUTPUT_BYTES"@,
                    usize::MAX as nat,
                    65536,
                )
                &&& a.allow_local_terminal == env_flag(vars@, "OWNPAGER_ALLOW_LOCAL_TERMINAL"@, false)
                &&& a.branch_per_run == env_flag(vars@, "OWNPAGER_BRANCH_PER_RUN"@, true)
                &&& a.branch_parent@ == env_or_default_spec(vars@, "OWNPAGER_BRANCH_PARENT"@, "main"@)
                &&& opt_chars(a.branch_merge_policy) == trimmed_nonblank(
                    env_value(vars@, "OWNPAGER_BRANCH_MERGE_POLICY"@),
                )
                &&& opt_chars(a.flow_id) == trimmed_nonblank(env_value(vars@, "OWNPAGER_FLOW_ID"@))
                &&& a.flow_mode == match env_value(vars@, "OWNPAGER_FLOW_MODE"@) {
                    Some(v) => parse_flow_mode_spec(v),
                    None => FlowMode::Auto,
                }
                &&& a.flow_poll_interval_ms == env_number(
                    vars@,
                    "OWNPAGER_FLOW_POLL_INTERVAL_MS"@,
                    u64::MAX as nat,
                    1000,
                )
                &&& a.flow_timeout_seconds == env_number(
                    vars@,
                    "OWNPAGER_FLOW_TIMEOUT_SECONDS"@,
                    u64::MAX as nat,
                    180,
                )
            },
    {
        let openai = match OpenAiRuntimeConfig::from_vars(vars) {
            Ok(c) => c,
            Err(e) => return Err(e),
        };
        let workspace_default = match &default_workspace {
            Some(w) => w.clone(),
            None => literal("ownpager"),
        };
        let gateway_fallback = env_or_default(
            vars,
            "THINKINGROOT_BASE_URL",
            literal("http://127.0.0.1:3001"),
        );
        let project_key = match find_env(vars, "THINKINGROOT_PROJECT_KEY") {
            Some(_) => trimmed_value(vars, "THINKINGROOT_PROJECT_KEY"),
            None => trimmed_value(vars, "THINKINGROOT_API_KEY"),
        };
        let mut script: Vec<char> = chars_of(manifest_dir);
        push_str(&mut script, "/scripts/thinkingroot_sdk_bridge.mjs");
        let flow_mode = match find_env(vars, "OWNPAGER_FLOW_MODE") {
            Some(v) => parse_flow_mode(v.as_str()),
            None => FlowMode::Auto,
        };
        let thinkingroot = ThinkingRootRuntimeConfig {
            gateway_url: env_or_default(vars, "THINKINGROOT_GATEWAY_URL", gateway_fallback),
            project_key,
            workspace: env_or_default(vars, "THINKINGROOT_WORKSPACE", workspace_default),
            default_agent_id: env_or_default(vars, "OWNPAGER_DEFAULT_AGENT_ID", literal("ownpager")),
            prompt_name: env_or_default(vars, "THINKINGROOT_PROMPT_NAME", literal("main")),
            top_k: env_usize(vars, "THINKINGROOT_TOP_K", 6),
            max_tools: env_usize(vars, "THINKINGROOT_MAX_TOOLS", 4),
            node_binary: env_or_default(vars, "OWNPAGER_NODE_BINARY", literal("node")),
            sdk_bridge_script: env_or_default(
                vars,
                "OWNPAGER_THINKINGROOT_SDK_BRIDGE",
                string_of(&script),
            ),
        };
        let agent = AgentRuntimeConfig {
            max_tool_iterations: env_usize(vars, "OWNPAGER_MAX_TOOL_ITERATIONS", 3),
            routed_tool_top_k: env_usize(vars, "OWNPAGER_ROUTED_TOOL_TOP_K", 8),
            terminal_timeout_seconds: env_unsigned(
                vars,
                "OWNPAGER_TERMINAL_TIMEOUT_SECONDS",
                u64::MAX,
                30,
            ),
            terminal_max_output_bytes: env_usize(vars, "OWNPAGER_TERMINAL_MAX_OUTPUT_BYTES", 65536),
            allow_local_terminal: env_bool(vars, "OWNPAGER_ALLOW_LOCAL_TERMINAL", false),
            branch_per_run: env_bool(vars, "OWNPAGER_BRANCH_PER_RUN", true),
            branch_parent: env_or_default(vars, "OWNPAGER_BRANCH_PARENT", literal("main")),
            branch_merge_policy: trimmed_value(vars, "OWNPAGER_BRANCH_MERGE_POLICY"),
            flow_id: trimmed_value(vars, "OWNPAGER_FLOW_ID"),
            flow_mode,
            flow_poll_interval_ms: env_unsigned(vars, "OWNPAGER_FLOW_POLL_INTERVAL_MS", u64::MAX, 1000),
            flow_timeout_seconds: env_unsigned(vars, "OWNPAGER_FLOW_TIMEOUT_SECONDS", u64::MAX, 180),
        };
        Ok(AppConfig { default_workspace, thinkingroot, openai, agent })
    }
}

} // verus!
