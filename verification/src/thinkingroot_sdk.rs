//! The ThinkingRoot SDK client's own logic: the identity a turn runs under,
//! the envelope every bridge call carries, and how a failed bridge run is
//! reported. Running the Node bridge itself is the caller's part.
use vstd::prelude::*;

use crate::config::ThinkingRootRuntimeConfig;
use crate::external::{from_utf8_lossy, utf8_lossy};
use crate::session::or_default;
use crate::text::{
    chars_of, map_chars, map_seq, push_str, string_of, trim_chars, trim_class, trim_ws, CharClass,
    CharMap,
};
use crate::types::{copy_opt, opt_view, AgentIdentity, PreparedTurnRequest};

verus! {

/// A ThinkingRoot client that speaks to the service through the SDK bridge.
#[derive(Clone, Debug)]
pub struct ThinkingRootSdkClient {
    config: ThinkingRootRuntimeConfig,
}

/// What every bridge call carries besides its own request.
#[derive(Clone, Debug)]
pub struct BridgeEnvelope {
    pub gateway_url: String,
    pub project_key: Option<String>,
    pub workspace: String,
    pub scoped_user_id: String,
    pub prompt_name: Option<String>,
    pub top_k: usize,
    pub max_tools: usize,
    pub session_id: String,
}

/// An agent id as ThinkingRoot accepts it: characters other than ASCII
/// letters, digits, `_` and `-` become `_`, `_` is trimmed from both ends,
/// and an empty result becomes `fallback`.
pub open spec fn agent_id_of(raw: Seq<char>, fallback: Seq<char>) -> Seq<char> {
    or_default(
        trim_class(map_seq(CharMap::KeepIdentifierElse('_'), raw), CharClass::Exactly('_')),
        fallback,
    )
}

pub fn normalize_agent_id(raw: &str, fallback: &str) -> (r: String)
    ensures
        r@ == agent_id_of(raw@, fallback@),
{
    let mapped = map_chars(&chars_of(raw), CharMap::KeepIdentifierElse('_'));
    let trimmed = trim_chars(&mapped, CharClass::Exactly('_'));
    if trimmed.len() > 0 {
        string_of(&trimmed)
    } else {
        string_of(&chars_of(fallback))
    }
}

fn owned(s: Option<&str>) -> (r: Option<String>)
    ensures
        opt_view(r) == match s {
            Some(x) => Some(x@),
            None => None,
        },
{
    match s {
        Some(x) => Some(string_of(&chars_of(x))),
        None => None,
    }
}

/// The message of a bridge run that failed, given its error output and its
/// output as text: the trimmed error output, or the trimmed output when the
/// error output is blank.
pub open spec fn bridge_failure_text(stderr: Seq<char>, stdout: Seq<char>) -> Seq<char> {
    let err = trim_ws(stderr);
    let out = trim_ws(stdout);
    "ThinkingRoot SDK bridge failed: "@ + if err.len() > 0 {
        err
    } else {
        out
    }
}

/// Reports a bridge run that exited unsuccessfully, given its outputs as text.
pub fn bridge_failure_message(stderr: &str, stdout: &str) -> (m: String)
    ensures
        m@ == bridge_failure_text(stderr@, stdout@),
{
    let err = trim_chars(&chars_of(stderr), CharClass::Whitespace);
    let out = trim_chars(&chars_of(stdout), CharClass::Whitespace);
    let mut m = chars_of("ThinkingRoot SDK bridge failed: ");
    let details = if err.len() > 0 {
        err
    } else {
        out
    };
    let details = string_of(&details);
    push_str(&mut m, details.as_str());
    string_of(&m)
}

/// Reports a bridge run that exited unsuccessfully; its outputs are read as lossy UTF-8.
pub fn bridge_failure(stderr: &Vec<u8>, stdout: &Vec<u8>) -> (m: String)
    ensures
        m@ == bridge_failure_text(utf8_lossy(stderr@), utf8_lossy(stdout@)),
{
    let err = from_utf8_lossy(stderr);
    let out = from_utf8_lossy(stdout);
    bridge_failure_message(err.as_str(), out.as_str())
}

impl ThinkingRootSdkClient {
    pub fn new(config: ThinkingRootRuntimeConfig) -> (c: ThinkingRootSdkClient)
        ensures
            c.config() == config,
    {
        ThinkingRootSdkClient { config }
    }

    pub closed spec fn config(&self) -> ThinkingRootRuntimeConfig {
        self.config
    }

    /// The configuration the client was made with.
    pub fn runtime_config(&self) -> (c: &ThinkingRootRuntimeConfig)
        ensures
            *c == self.config(),
    {
        &self.config
    }

    /// The identity a turn runs under: the given agent id (else the
    /// default), normalized, as both agent and scoped user; the request's
    /// workspace hint (else the configured workspace); the given prompt
    /// (else the configured one); the given session (else the request's key).
    pub fn derive_agent_identity(
        &self,
        request: &PreparedTurnRequest,
        agent_id: Option<&str>,
        prompt_name: Option<&str>,
        session_id: Option<&str>,
    ) -> (id: AgentIdentity)
        ensures
            id.agent_id@ == agent_id_of(
                match agent_id {
                    Some(a) => a@,
                    None => self.config().default_agent_id@,
                },
                self.config().default_agent_id@,
            ),
            id.scoped_user_id == id.agent_id,
            id.workspace == match request.workspace_hint {
                Some(w) => w,
                None => self.config().workspace,
            },
            opt_view(id.prompt_name) == Some(
                match prompt_name {
                    Some(p) => p@,
                    None => self.config().prompt_name@,
                },
            ),
            id.session_id@ == match session_id {
                Some(s) => s@,
                None => request.session_key@,
            },
    {
        let raw = match agent_id {
            Some(a) => a,
            None => self.config.default_agent_id.as_str(),
        };
        let agent_id = normalize_agent_id(raw, self.config.default_agent_id.as_str());
        let workspace = match &request.workspace_hint {
            Some(w) => w.clone(),
            None => self.config.workspace.clone(),
        };
        let prompt_name = match owned(prompt_name) {
            Some(p) => Some(p),
            None => Some(self.config.prompt_name.clone()),
        };
        let session_id = match owned(session_id) {
            Some(s) => s,
            None => request.session_key.clone(),
        };
        AgentIdentity {
            scoped_user_id: agent_id.clone(),
            agent_id,
            workspace,
            prompt_name,
            session_id,
        }
    }

    /// The envelope of a bridge call made for `identity`.
    pub fn bridge_envelope(&self, identity: &AgentIdentity) -> (e: BridgeEnvelope)
        ensures
            e.gateway_url == self.config().gateway_url,
            e.project_key == self.config().project_key,
            e.workspace == identity.workspace,
            e.scoped_user_id == identity.scoped_user_id,
            e.prompt_name == identity.prompt_name,
            e.top_k == self.config().top_k,
            e.max_tools == self.config().max_tools,
            e.session_id == identity.session_id,
    {
        BridgeEnvelope {
            gateway_url: self.config.gateway_url.clone(),
            project_key: copy_opt(&self.config.project_key),
            workspace: identity.workspace.clone(),
            scoped_user_id: identity.scoped_user_id.clone(),
            prompt_name: copy_opt(&identity.prompt_name),
            top_k: self.config.top_k,
            max_tools: self.config.max_tools,
            session_id: identity.session_id.clone(),
        }
    }
}

} // verus!
