//! The terminal tool's rules: which commands are refused, which working
//! directories are allowed, and how a run's output becomes a result.
//!
//! Starting the process, reading its pipes and resolving paths on disk are
//! the caller's part; everything decided around them is here.
use vstd::prelude::*;

use crate::external::{from_utf8_lossy, to_lowercase, unicode_lowercase, utf8_lossy};
use crate::text::{
    chars_eq, chars_of, contains_str, contains_seq, keep_nonempty, push_str, split_chars,
    starts_with_seq, starts_with_str, string_of, trim_chars, trim_ws, words, CharClass,
};
use crate::types::{
    TerminalCommandRequest, TerminalCommandResult, TerminalCommandStatus, TerminalSafetyDecision,
};

verus! {

pub const DEFAULT_TIMEOUT_SECONDS: u64 = 10;

pub const DEFAULT_MAX_OUTPUT_BYTES: usize = 65536;

pub const DEFAULT_ALLOWED_ROOT: &'static str = "/Users/alenjosephjohn/Multi";

/// Why a lower-cased command is refused: the reason of the first refused
/// pattern it contains, in the order they are checked.
pub open spec fn blocked_reason(n: Seq<char>) -> Option<Seq<char>> {
    if contains_seq(n, "rm -rf /"@) {
        Some("command matched destructive root deletion pattern"@)
    } else if contains_seq(n, "sudo"@) {
        Some("sudo is not allowed in this terminal tool version"@)
    } else if contains_seq(n, "mkfs"@) {
        Some("filesystem formatting commands are blocked"@)
    } else if contains_seq(n, "dd if="@) {
        Some("raw disk copy commands are blocked"@)
    } else if contains_seq(n, "chmod -r 777 /"@) {
        Some("recursive broad permission changes are blocked"@)
    } else if contains_seq(n, "chown -r"@) {
        Some("recursive ownership changes are blocked"@)
    } else if contains_seq(n, ":(){"@) {
        Some("fork bomb pattern is blocked"@)
    } else if contains_seq(n, ".ssh"@) {
        Some("direct access to ssh secrets is blocked"@)
    } else if contains_seq(n, "id_rsa"@) {
        Some("direct access to private keys is blocked"@)
    } else if contains_seq(n, "id_ed25519"@) {
        Some("direct access to private keys is blocked"@)
    } else if contains_seq(n, ".env"@) {
        Some("direct access to env files is blocked"@)
    } else if contains_seq(n, "curl"@) {
        Some("network exfiltration-like commands are blocked for now"@)
    } else if contains_seq(n, "wget"@) {
        Some("network exfiltration-like commands are blocked for now"@)
    } else {
        None
    }
}

/// The safety decision for a command: refused, with its reason, when its
/// lower-cased text contains a refused pattern; else allowed.
pub open spec fn safety_of(command: Seq<char>) -> (bool, Option<Seq<char>>) {
    match blocked_reason(unicode_lowercase(command)) {
        Some(r) => (false, Some(r)),
        None => (true, None),
    }
}

pub open spec fn decision_view(d: TerminalSafetyDecision) -> (bool, Option<Seq<char>>) {
    (
        d.allowed,
        match d.reason {
            Some(r) => Some(r@),
            None => None,
        },
    )
}

fn refused(reason: &str) -> (d: TerminalSafetyDecision)
    ensures
        decision_view(d) == (false, Some(reason@)),
{
    TerminalSafetyDecision { allowed: false, reason: Some(string_of(&chars_of(reason))) }
}

/// Decides whether the terminal tool may run a command, given its lower-cased text.
pub fn classify_lowercased_command(normalized: &str) -> (d: TerminalSafetyDecision)
    ensures
        decision_view(d) == match blocked_reason(normalized@) {
            Some(r) => (false, Some(r)),
            None => (true, None::<Seq<char>>),
        },
{
    let normalized = chars_of(normalized);
    if contains_str(&normalized, "rm -rf /") {
        return refused("command matched destructive root deletion pattern");
    }
    if contains_str(&normalized, "sudo") {
        return refused("sudo is not allowed in this terminal tool version");
    }
    if contains_str(&normalized, "mkfs") {
        return refused("filesystem formatting commands are blocked");
    }
    if contains_str(&normalized, "dd if=") {
        return refused("raw disk copy commands are blocked");
    }
    if contains_str(&normalized, "chmod -r 777 /") {
        return refused("recursive broad permission changes are blocked");
    }
    if contains_str(&normalized, "chown -r") {
        return refused("recursive ownership changes are blocked");
    }
    if contains_str(&normalized, ":(){") {
        return refused("fork bomb pattern is blocked");
    }
    if contains_str(&normalized, ".ssh") {
        return refused("direct access to ssh secrets is blocked");
    }
    if contains_str(&normalized, "id_rsa") {
        return refused("direct access to private keys is blocked");
    }
    if contains_str(&normalized, "id_ed25519") {
        return refused("direct access to private keys is blocked");
    }
    if contains_str(&normalized, ".env") {
        return refused("direct access to env files is blocked");
    }
    if contains_str(&normalized, "curl") {
        return refused("network exfiltration-like commands are blocked for now");
    }
    if contains_str(&normalized, "wget") {
        return refused("network exfiltration-like commands are blocked for now");
    }
    TerminalSafetyDecision { allowed: true, reason: None }
}

/// Decides whether the terminal tool may run a command: its text is
/// lower-cased, then checked against the refused patterns.
pub fn classify_command_safety(command: &str) -> (d: TerminalSafetyDecision)
    ensures
        decision_view(d) == safety_of(command@),
{
    classify_lowercased_command(to_lowercase(command).as_str())
}

/// The result of a command the tool refused to run: `Blocked`, the reason
/// as its error output and as the safety decision's reason.
pub fn blocked_result(command: String, cwd: String, duration_ms: u128, reason: &str) -> (r: TerminalCommandResult)
    ensures
        r.command == command,
        r.cwd == cwd,
        r.status == TerminalCommandStatus::Blocked,
        r.exit_code is None,
        r.stdout@.len() == 0,
        r.stderr@ == reason@,
        r.duration_ms == duration_ms,
        !r.truncated,
        decision_view(r.safety) == (false, Some(reason@)),
{
    TerminalCommandResult {
        command,
        cwd,
        status: TerminalCommandStatus::Blocked,
        exit_code: None,
        stdout: String::new(),
        stderr: string_of(&chars_of(reason)),
        duration_ms,
        truncated: false,
        safety: refused(reason),
    }
}

/// The bytes of `\n[output truncated]`.
pub open spec fn truncation_marker() -> Seq<u8> {
    seq![
        10u8, 91u8, 111u8, 117u8, 116u8, 112u8, 117u8, 116u8, 32u8, 116u8, 114u8, 117u8, 110u8,
        99u8, 97u8, 116u8, 101u8, 100u8, 93u8,
    ]
}

/// Output cut to `max` bytes and marked as cut, when it is longer.
pub open spec fn limited_output(bytes: Seq<u8>, max: nat) -> Seq<u8> {
    if bytes.len() > max {
        bytes.take(max as int) + truncation_marker()
    } else {
        bytes
    }
}

/// A pipe's bytes cut to `max_output_bytes` and marked when longer; the flag
/// tells whether they were cut.
pub fn limit_output_bytes(bytes: Vec<u8>, max_output_bytes: usize) -> (r: (Vec<u8>, bool))
    ensures
        r.0@ == limited_output(bytes@, max_output_bytes as nat),
        r.1 == (bytes@.len() > max_output_bytes),
{
    let truncated = bytes.len() > max_output_bytes;
    if !truncated {
        return (bytes, false);
    }
    let mut limited: Vec<u8> = Vec::new();
    let mut i: usize = 0;
    while i < max_output_bytes
        invariant
            i <= max_output_bytes < bytes@.len(),
            limited@ == bytes@.take(i as int),
        decreases max_output_bytes - i,
    {
        limited.push(bytes[i]);
        assert(bytes@.take(i + 1) =~= bytes@.take(i as int).push(bytes@[i as int]));
        i = i + 1;
    }
    let ghost cut = limited@;
    let marker: [u8; 19] = [
        10u8, 91u8, 111u8, 117u8, 116u8, 112u8, 117u8, 116u8, 32u8, 116u8, 114u8, 117u8, 110u8,
        99u8, 97u8, 116u8, 101u8, 100u8, 93u8,
    ];
    let mut j: usize = 0;
    while j < 19
        invariant
            j <= 19,
            marker@ == truncation_marker(),
            limited@ == cut + truncation_marker().take(j as int),
        decreases 19 - j,
    {
        limited.push(marker[j]);
        assert(truncation_marker().take(j + 1) =~= truncation_marker().take(j as int).push(
            truncation_marker()[j as int],
        ));
        j = j + 1;
    }
    assert(truncation_marker().take(19) =~= truncation_marker());
    (limited, true)
}

/// A pipe's bytes as text, cut to `max_output_bytes` when longer; the flag
/// tells whether they were cut.
pub fn truncate_bytes(bytes: Vec<u8>, max_output_bytes: usize) -> (r: (String, bool))
    ensures
        r.0@ == utf8_lossy(limited_output(bytes@, max_output_bytes as nat)),
        vstd::utf8::valid_utf8(limited_output(bytes@, max_output_bytes as nat)) ==> r.0@
            == vstd::utf8::decode_utf8(limited_output(bytes@, max_output_bytes as nat)),
        r.1 == (bytes@.len() > max_output_bytes),
{
    let (limited, truncated) = limit_output_bytes(bytes, max_output_bytes);
    (from_utf8_lossy(&limited), truncated)
}

/// The components of a canonical path: its non-empty `/`-separated names.
pub open spec fn path_names(path: Seq<char>) -> Seq<Seq<char>> {
    words(path, CharClass::Exactly('/'))
}

/// Whether canonical path `cwd` lies within canonical path `root`
/// (component-wise, as `Path::starts_with` compares): both are absolute or
/// both relative, and the names of `root` begin the names of `cwd`.
pub open spec fn within_root(cwd: Seq<char>, root: Seq<char>) -> bool {
    &&& starts_with_seq(cwd, "/"@) == starts_with_seq(root, "/"@)
    &&& path_names(root).len() <= path_names(cwd).len()
    &&& path_names(cwd).take(path_names(root).len() as int) == path_names(root)
}

/// The message for a working directory outside the allowed root.
pub open spec fn outside_root_message(cwd: Seq<char>, root: Seq<char>) -> Seq<char> {
    cwd + " is outside allowed root "@ + root
}

/// Checks a canonical working directory against the canonical allowed root.
pub fn check_workdir(canonical_cwd: &str, canonical_root: &str) -> (r: Result<String, String>)
    ensures
        match r {
            Ok(p) => within_root(canonical_cwd@, canonical_root@) && p@ == canonical_cwd@,
            Err(e) => !within_root(canonical_cwd@, canonical_root@) && e@ == outside_root_message(
                canonical_cwd@,
                canonical_root@,
            ),
        },
{
    let cwd = chars_of(canonical_cwd);
    let root = chars_of(canonical_root);
    let cwd_names = keep_nonempty(&split_chars(&cwd, CharClass::Exactly('/')));
    let root_names = keep_nonempty(&split_chars(&root, CharClass::Exactly('/')));
    let same_root = starts_with_str(&cwd, "/") == starts_with_str(&root, "/");
    let mut inside = same_root && root_names.len() <= cwd_names.len();
    if inside {
        let mut i: usize = 0;
        while i < root_names.len()
            invariant
                root_names.len() <= cwd_names.len(),
                i <= root_names.len(),
                inside ==> forall|k: int|
                    0 <= k < i ==> cwd_names.deep_view()[k] == root_names.deep_view()[k],
                !inside ==> exists|k: int|
                    0 <= k < root_names.len() && cwd_names.deep_view()[k]
                        != root_names.deep_view()[k],
            decreases root_names.len() - i,
        {
            proof {
                crate::text::lemma_char_vec_deep(cwd_names@[i as int]);
                crate::text::lemma_char_vec_deep(root_names@[i as int]);
            }
            if !chars_eq(&cwd_names[i], &root_names[i]) {
                assert(cwd_names.deep_view()[i as int] != root_names.deep_view()[i as int]);
                inside = false;
            }
            i = i + 1;
        }
        proof {
            let cn = cwd_names.deep_view();
            let rn = root_names.deep_view();
            if inside {
                assert(cn.take(rn.len() as int) =~= rn);
            } else {
                let k = choose|k: int| 0 <= k < rn.len() && cn[k] != rn[k];
                assert(cn.take(rn.len() as int)[k] == cn[k]);
            }
        }
    }
    if inside {
        Ok(string_of(&cwd))
    } else {
        let mut m = cwd;
        push_str(&mut m, " is outside allowed root ");
        push_str(&mut m, canonical_root);
        Err(string_of(&m))
    }
}

/// The working directory a request asks for: its `workdir` unless blank.
pub fn requested_workdir(request: &TerminalCommandRequest) -> (r: Option<String>)
    ensures
        match request.workdir {
            Some(w) => if trim_ws(w@).len() > 0 {
                r == Some(w)
            } else {
                r is None
            },
            None => r is None,
        },
{
    match &request.workdir {
        Some(w) => {
            if trim_chars(&chars_of(w.as_str()), CharClass::Whitespace).len() > 0 {
                Some(w.clone())
            } else {
                None
            }
        },
        None => None,
    }
}

/// The root a request is confined to: its own, else the default root.
pub fn allowed_root(request: &TerminalCommandRequest) -> (r: String)
    ensures
        r@ == match request.allowed_root {
            Some(root) => root@,
            None => DEFAULT_ALLOWED_ROOT@,
        },
{
    match &request.allowed_root {
        Some(root) => root.clone(),
        None => string_of(&chars_of(DEFAULT_ALLOWED_ROOT)),
    }
}

/// Whether `r` is the result of refusing `command` in `cwd` for `reason`:
/// `Blocked`, no exit code, no output, the reason as error output and as
/// the safety decision's reason, nothing cut.
pub open spec fn blocked_with(
    r: TerminalCommandResult,
    command: Seq<char>,
    cwd: Seq<char>,
    reason: Seq<char>,
    elapsed_ms: u128,
) -> bool {
    &&& r.command@ == command
    &&& r.cwd@ == cwd
    &&& r.status == TerminalCommandStatus::Blocked
    &&& r.exit_code is None
    &&& r.stdout@.len() == 0
    &&& r.stderr@ == reason
    &&& r.duration_ms == elapsed_ms
    &&& !r.truncated
    &&& decision_view(r.safety) == (false, Some(reason))
}

/// What to do with a terminal request.
#[derive(Debug)]
pub enum TerminalPlan {
    /// Refuse it with this result.
    Blocked(TerminalCommandResult),
    /// Run `command` in `cwd` for at most `timeout_seconds`, keeping at most
    /// `max_output_bytes` of output and error output together.
    Execute { command: String, cwd: String, timeout_seconds: u64, max_output_bytes: usize },
}

/// Decides a terminal request, given the outcome of resolving its working
/// directory (the canonical directory, or why it is not allowed) and the
/// time spent so far. A blank command is refused first, then an unsafe
/// one, then one whose directory is not allowed; any other runs with the
/// request's limits, else the defaults, keeping at least one byte of output.
pub fn plan_terminal_command(
    request: TerminalCommandRequest,
    workdir: Result<String, String>,
    elapsed_ms: u128,
) -> (p: TerminalPlan)
    ensures
        ({
            let command = trim_ws(request.command@);
            let cwd_text = match workdir {
                Ok(w) => w@,
                Err(e) => e@,
            };
            if command.len() == 0 {
                p matches TerminalPlan::Blocked(r) && blocked_with(
                    r,
                    command,
                    cwd_text,
                    "command is empty"@,
                    elapsed_ms,
                )
            } else if !safety_of(command).0 {
                p matches TerminalPlan::Blocked(r) && blocked_with(
                    r,
                    command,
                    cwd_text,
                    safety_of(command).1->0,
                    elapsed_ms,
                )
            } else {
                match workdir {
                    Err(e) => p matches TerminalPlan::Blocked(r) && blocked_with(
                        r,
                        command,
                        e@,
                        "workdir outside allowed root"@,
                        elapsed_ms,
                    ),
                    Ok(w) => p matches TerminalPlan::Execute {
                        command: c,
                        cwd,
                        timeout_seconds,
                        max_output_bytes,
                    } && c@ == command && cwd == w && timeout_seconds == match request.timeout_seconds {
                        Some(t) => t,
                        None => DEFAULT_TIMEOUT_SECONDS,
                    } && max_output_bytes == match request.max_output_bytes {
                        Some(m) => if m == 0 {
                            1
                        } else {
                            m
                        },
                        None => DEFAULT_MAX_OUTPUT_BYTES,
                    },
                }
            }
        }),
{
    let trimmed = trim_chars(&chars_of(request.command.as_str()), CharClass::Whitespace);
    let command = string_of(&trimmed);
    let cwd_text = match &workdir {
        Ok(w) => w.clone(),
        Err(e) => e.clone(),
    };
    if trimmed.len() == 0 {
        return TerminalPlan::Blocked(blocked_result(command, cwd_text, elapsed_ms, "command is empty"));
    }
    let safety = classify_command_safety(command.as_str());
    if !safety.allowed {
        let reason = match &safety.reason {
            Some(r) => r.clone(),
            None => string_of(&chars_of("command blocked")),
        };
        return TerminalPlan::Blocked(
            blocked_result(command, cwd_text, elapsed_ms, reason.as_str()),
        );
    }
    match workdir {
        Err(e) => TerminalPlan::Blocked(
            blocked_result(command, e, elapsed_ms, "workdir outside allowed root"),
        ),
        Ok(w) => {
            let timeout_seconds = match request.timeout_seconds {
                Some(t) => t,
                None => DEFAULT_TIMEOUT_SECONDS,
            };
            let max_output_bytes = match request.max_output_bytes {
                Some(m) => if m == 0 {
                    1
                } else {
                    m
                },
                None => DEFAULT_MAX_OUTPUT_BYTES,
            };
            TerminalPlan::Execute { command, cwd: w, timeout_seconds, max_output_bytes }
        },
    }
}

/// How a started command ended.
#[derive(Clone, Copy, Debug, PartialEq, Eq, Structural)]
pub enum ExitOutcome {
    /// It exited, successfully or not, with its exit code where it had one.
    Exited { success: bool, code: Option<i32> },
    /// It was stopped at its deadline, or its state could not be read.
    TimedOut,
}

/// How many bytes of error output may be kept after `stdout_len` bytes of
/// output, under a limit of `max` bytes for both together.
pub open spec fn error_budget(stdout_len: nat, max: nat) -> nat {
    if stdout_len >= max {
        0
    } else {
        (max - stdout_len) as nat
    }
}

/// The number of bytes of `bytes` kept under a limit of `max`.
pub open spec fn kept_len(bytes: Seq<u8>, max: nat) -> nat {
    if bytes.len() > max {
        max
    } else {
        bytes.len()
    }
}

/// The result of a command that was started: `Success` or `Failed` by its
/// exit, `TimedOut` when it was stopped. The limit bounds both outputs
/// together: the output keeps at most the limit, the error output at most
/// what the output left of it; each cut output is marked, and `truncated`
/// tells whether either was cut.
pub fn completed_result(
    command: String,
    cwd: String,
    outcome: ExitOutcome,
    stdout: Vec<u8>,
    stderr: Vec<u8>,
    max_output_bytes: usize,
    duration_ms: u128,
) -> (r: TerminalCommandResult)
    ensures
        r.command == command,
        r.cwd == cwd,
        r.status == match outcome {
            ExitOutcome::Exited { success, .. } => if success {
                TerminalCommandStatus::Success
            } else {
                TerminalCommandStatus::Failed
            },
            ExitOutcome::TimedOut => TerminalCommandStatus::TimedOut,
        },
        r.exit_code == match outcome {
            ExitOutcome::Exited { code, .. } => code,
            ExitOutcome::TimedOut => None,
        },
        r.stdout@ == utf8_lossy(limited_output(stdout@, max_output_bytes as nat)),
        vstd::utf8::valid_utf8(limited_output(stdout@, max_output_bytes as nat)) ==> r.stdout@
            == vstd::utf8::decode_utf8(limited_output(stdout@, max_output_bytes as nat)),
        r.stderr@ == utf8_lossy(
            limited_output(stderr@, error_budget(stdout@.len(), max_output_bytes as nat)),
        ),
        vstd::utf8::valid_utf8(
            limited_output(stderr@, error_budget(stdout@.len(), max_output_bytes as nat)),
        ) ==> r.stderr@ == vstd::utf8::decode_utf8(
            limited_output(stderr@, error_budget(stdout@.len(), max_output_bytes as nat)),
        ),
        r.truncated == (stdout@.len() > max_output_bytes || stderr@.len() > error_budget(
            stdout@.len(),
            max_output_bytes as nat,
        )),
        kept_len(stdout@, max_output_bytes as nat) + kept_len(
            stderr@,
            error_budget(stdout@.len(), max_output_bytes as nat),
        ) <= max_output_bytes,
        r.duration_ms == duration_ms,
        decision_view(r.safety) == (true, None::<Seq<char>>),
{
    let budget = if stdout.len() >= max_output_bytes {
        0
    } else {
        max_output_bytes - stdout.len()
    };
    let (out, out_cut) = truncate_bytes(stdout, max_output_bytes);
    let (err, err_cut) = truncate_bytes(stderr, budget);
    let (status, exit_code) = match outcome {
        ExitOutcome::Exited { success, code } => if success {
            (TerminalCommandStatus::Success, code)
        } else {
            (TerminalCommandStatus::Failed, code)
        },
        ExitOutcome::TimedOut => (TerminalCommandStatus::TimedOut, None),
    };
    TerminalCommandResult {
        command,
        cwd,
        status,
        exit_code,
        stdout: out,
        stderr: err,
        duration_ms,
        truncated: out_cut || err_cut,
        safety: TerminalSafetyDecision { allowed: true, reason: None },
    }
}

/// The result of a command that could not be started: `Failed`, with the
/// error as its error output.
pub fn spawn_failure_result(command: String, cwd: String, error: String, duration_ms: u128) -> (r: TerminalCommandResult)
    ensures
        r.command == command,
        r.cwd == cwd,
        r.status == TerminalCommandStatus::Failed,
        r.exit_code is None,
        r.stdout@.len() == 0,
        r.stderr == error,
        r.duration_ms == duration_ms,
        !r.truncated,
        decision_view(r.safety) == (true, None::<Seq<char>>),
{
    TerminalCommandResult {
        command,
        cwd,
        status: TerminalCommandStatus::Failed,
        exit_code: None,
        stdout: String::new(),
        stderr: error,
        duration_ms,
        truncated: false,
        safety: TerminalSafetyDecision { allowed: true, reason: None },
    }
}

} // verus!
