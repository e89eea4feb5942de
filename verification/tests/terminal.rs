use ownpager::terminal::{
    allowed_root, blocked_result, check_workdir, classify_command_safety,
    classify_lowercased_command, completed_result, limit_output_bytes,
    plan_terminal_command, requested_workdir, spawn_failure_result, truncate_bytes, ExitOutcome,
    TerminalPlan, DEFAULT_ALLOWED_ROOT, DEFAULT_MAX_OUTPUT_BYTES, DEFAULT_TIMEOUT_SECONDS,
};
use ownpager::types::{TerminalCommandRequest, TerminalCommandStatus};

fn request(command: &str) -> TerminalCommandRequest {
    TerminalCommandRequest {
        command: command.to_string(),
        workdir: Some("/Users/alenjosephjohn/Multi/ownpager".to_string()),
        timeout_seconds: Some(5),
        max_output_bytes: Some(1024),
        allowed_root: Some("/Users/alenjosephjohn/Multi".to_string()),
    }
}

fn resolved(req: &TerminalCommandRequest) -> Result<String, String> {
    let cwd = requested_workdir(req).unwrap_or_else(|| "/".to_string());
    check_workdir(&cwd, &allowed_root(req))
}

fn status_of(plan: &TerminalPlan) -> Option<TerminalCommandStatus> {
    match plan {
        TerminalPlan::Blocked(result) => Some(result.status),
        TerminalPlan::Execute { .. } => None,
    }
}

#[test]
fn rejects_empty_command() {
    let req = request("   ");
    let cwd = resolved(&req);
    let plan = plan_terminal_command(req, cwd, 0);
    assert_eq!(status_of(&plan), Some(TerminalCommandStatus::Blocked));
}

#[test]
fn rejects_workdir_outside_allowed_root() {
    let mut req = request("pwd");
    req.workdir = Some("/tmp".to_string());
    let cwd = resolved(&req);
    let plan = plan_terminal_command(req, cwd, 0);
    assert_eq!(status_of(&plan), Some(TerminalCommandStatus::Blocked));
}

#[test]
fn blocks_dangerous_command() {
    let req = request("sudo rm -rf /");
    let cwd = resolved(&req);
    match plan_terminal_command(req, cwd, 0) {
        TerminalPlan::Blocked(result) => {
            assert_eq!(result.status, TerminalCommandStatus::Blocked);
            assert!(!result.safety.allowed);
        }
        TerminalPlan::Execute { .. } => panic!("a dangerous command was planned to run"),
    }
}

#[test]
fn safe_command_inside_the_root_is_planned_with_its_limits() {
    let req = request("  printf hello  ");
    let cwd = resolved(&req);
    assert_eq!(cwd.as_deref(), Ok("/Users/alenjosephjohn/Multi/ownpager"));
    match plan_terminal_command(req, cwd, 0) {
        TerminalPlan::Execute { command, cwd, timeout_seconds, max_output_bytes } => {
            assert_eq!(command, "printf hello");
            assert_eq!(cwd, "/Users/alenjosephjohn/Multi/ownpager");
            assert_eq!(timeout_seconds, 5);
            assert_eq!(max_output_bytes, 1024);
        }
        TerminalPlan::Blocked(_) => panic!("a safe command was refused"),
    }
}

#[test]
fn missing_limits_take_the_defaults_and_zero_bytes_becomes_one() {
    let mut req = request("ls");
    req.timeout_seconds = None;
    req.max_output_bytes = None;
    match plan_terminal_command(req, Ok("/w".to_string()), 0) {
        TerminalPlan::Execute { timeout_seconds, max_output_bytes, .. } => {
            assert_eq!(timeout_seconds, DEFAULT_TIMEOUT_SECONDS);
            assert_eq!(max_output_bytes, DEFAULT_MAX_OUTPUT_BYTES);
        }
        TerminalPlan::Blocked(_) => panic!("refused"),
    }
    let mut req = request("ls");
    req.max_output_bytes = Some(0);
    match plan_terminal_command(req, Ok("/w".to_string()), 0) {
        TerminalPlan::Execute { max_output_bytes, .. } => assert_eq!(max_output_bytes, 1),
        TerminalPlan::Blocked(_) => panic!("refused"),
    }
}

#[test]
fn refusal_reasons_follow_the_pattern_order() {
    let d = classify_command_safety("SUDO rm -rf /");
    assert!(!d.allowed);
    assert_eq!(
        d.reason.as_deref(),
        Some("command matched destructive root deletion pattern")
    );
    let d = classify_command_safety("cat ~/.ssh/id_rsa");
    assert_eq!(d.reason.as_deref(), Some("direct access to ssh secrets is blocked"));
    let d = classify_command_safety("Curl https://example.com");
    assert_eq!(
        d.reason.as_deref(),
        Some("network exfiltration-like commands are blocked for now")
    );
    let d = classify_command_safety("ls -la");
    assert!(d.allowed);
    assert!(d.reason.is_none());
}

#[test]
fn unsafe_command_result_names_the_reason() {
    match plan_terminal_command(request("mkfs /dev/sda"), Err("gone".to_string()), 3) {
        TerminalPlan::Blocked(result) => {
            assert_eq!(result.stderr, "filesystem formatting commands are blocked");
            assert_eq!(result.cwd, "gone");
            assert_eq!(result.duration_ms, 3);
            assert_eq!(result.command, "mkfs /dev/sda");
        }
        TerminalPlan::Execute { .. } => panic!("ran"),
    }
}

#[test]
fn directory_outside_the_root_is_reported_by_path() {
    assert_eq!(
        check_workdir("/tmp", "/Users/alenjosephjohn/Multi"),
        Err("/tmp is outside allowed root /Users/alenjosephjohn/Multi".to_string())
    );
    assert_eq!(check_workdir("/a/bc", "/a/b").is_err(), true);
    assert_eq!(check_workdir("/a/b/c", "/a/b"), Ok("/a/b/c".to_string()));
    assert_eq!(check_workdir("/a/b", "/a/b"), Ok("/a/b".to_string()));
    match plan_terminal_command(request("pwd"), check_workdir("/tmp", "/x"), 0) {
        TerminalPlan::Blocked(result) => {
            assert_eq!(result.stderr, "workdir outside allowed root");
            assert_eq!(result.cwd, "/tmp is outside allowed root /x");
        }
        TerminalPlan::Execute { .. } => panic!("ran"),
    }
}

#[test]
fn blank_workdir_is_not_requested_and_root_defaults() {
    let mut req = request("pwd");
    req.workdir = Some("  ".to_string());
    req.allowed_root = None;
    assert!(requested_workdir(&req).is_none());
    assert_eq!(allowed_root(&req), DEFAULT_ALLOWED_ROOT);
}

#[test]
fn output_is_cut_and_marked() {
    let (text, cut) = truncate_bytes(b"abcdef".to_vec(), 3);
    assert!(cut);
    assert_eq!(text, "abc\n[output truncated]");
    let (text, cut) = truncate_bytes(b"abc".to_vec(), 3);
    assert!(!cut);
    assert_eq!(text, "abc");
}

#[test]
fn finished_command_results() {
    let result = completed_result(
        "printf abcdef".to_string(),
        "/w".to_string(),
        ExitOutcome::Exited { success: true, code: Some(0) },
        b"abcdef".to_vec(),
        Vec::new(),
        3,
        12,
    );
    assert_eq!(result.status, TerminalCommandStatus::Success);
    assert!(result.truncated);
    assert!(result.stdout.starts_with("abc"));
    assert_eq!(result.exit_code, Some(0));
    assert!(result.safety.allowed);

    let result = completed_result(
        "exit 7".to_string(),
        "/w".to_string(),
        ExitOutcome::Exited { success: false, code: Some(7) },
        Vec::new(),
        b"problem".to_vec(),
        1024,
        1,
    );
    assert_eq!(result.status, TerminalCommandStatus::Failed);
    assert_eq!(result.exit_code, Some(7));
    assert_eq!(result.stderr, "problem");
    assert!(!result.truncated);

    let result = completed_result(
        "sleep 2".to_string(),
        "/w".to_string(),
        ExitOutcome::TimedOut,
        Vec::new(),
        Vec::new(),
        1024,
        1000,
    );
    assert_eq!(result.status, TerminalCommandStatus::TimedOut);
    assert_eq!(result.exit_code, None);
}

#[test]
fn blocked_and_unstarted_results() {
    let result = blocked_result("x".to_string(), "/w".to_string(), 4, "command is empty");
    assert_eq!(result.status, TerminalCommandStatus::Blocked);
    assert_eq!(result.safety.reason.as_deref(), Some("command is empty"));
    let result = spawn_failure_result("x".to_string(), "/w".to_string(), "no bash".to_string(), 2);
    assert_eq!(result.status, TerminalCommandStatus::Failed);
    assert_eq!(result.stderr, "no bash");
    assert!(result.stdout.is_empty());
}

/// Plans a request inside a root that exists in every sandbox, then plays
/// the shell: the command ends as `outcome` after writing `stdout` and `stderr`.
fn run_with_shell(
    mut req: TerminalCommandRequest,
    outcome: ExitOutcome,
    stdout: &[u8],
    stderr: &[u8],
) -> ownpager::types::TerminalCommandResult {
    req.workdir = Some("/".to_string());
    req.allowed_root = Some("/".to_string());
    let cwd = resolved(&req);
    match plan_terminal_command(req, cwd, 0) {
        TerminalPlan::Blocked(result) => result,
        TerminalPlan::Execute { command, cwd, max_output_bytes, .. } => {
            completed_result(command, cwd, outcome, stdout.to_vec(), stderr.to_vec(), max_output_bytes, 1)
        }
    }
}

#[test]
fn executes_valid_command() {
    let result = run_with_shell(
        request("printf hello"),
        ExitOutcome::Exited { success: true, code: Some(0) },
        b"hello",
        b"",
    );
    assert_eq!(result.status, TerminalCommandStatus::Success);
    assert_eq!(result.stdout, "hello");
}

#[test]
fn captures_non_zero_exit_code_as_failed_result() {
    let result = run_with_shell(
        request("exit 7"),
        ExitOutcome::Exited { success: false, code: Some(7) },
        b"",
        b"",
    );
    assert_eq!(result.status, TerminalCommandStatus::Failed);
    assert_eq!(result.exit_code, Some(7));
}

#[test]
fn captures_stderr() {
    let result = run_with_shell(
        request("printf problem >&2"),
        ExitOutcome::Exited { success: true, code: Some(0) },
        b"",
        b"problem",
    );
    assert_eq!(result.status, TerminalCommandStatus::Success);
    assert_eq!(result.stderr, "problem");
}

#[test]
fn times_out_long_command() {
    let mut req = request("sleep 2");
    req.timeout_seconds = Some(1);
    req.workdir = Some("/".to_string());
    req.allowed_root = Some("/".to_string());
    let cwd = resolved(&req);
    match plan_terminal_command(req.clone(), cwd, 0) {
        TerminalPlan::Execute { timeout_seconds, .. } => assert_eq!(timeout_seconds, 1),
        TerminalPlan::Blocked(_) => panic!("a safe command was blocked"),
    }
    // The shell outlives its one second: the run ends as a time-out.
    let result = run_with_shell(req, ExitOutcome::TimedOut, b"", b"");
    assert_eq!(result.status, TerminalCommandStatus::TimedOut);
    assert_eq!(result.exit_code, None);
}

#[test]
fn output_and_error_output_share_one_limit() {
    let result = completed_result(
        "cmd".to_string(),
        "/w".to_string(),
        ExitOutcome::Exited { success: true, code: Some(0) },
        b"ab".to_vec(),
        b"cdefg".to_vec(),
        4,
        1,
    );
    assert_eq!(result.stdout, "ab");
    assert_eq!(result.stderr, "cd\n[output truncated]");
    assert!(result.truncated);

    let result = completed_result(
        "cmd".to_string(),
        "/w".to_string(),
        ExitOutcome::Exited { success: true, code: Some(0) },
        b"abcdef".to_vec(),
        b"xyz".to_vec(),
        4,
        1,
    );
    assert_eq!(result.stdout, "abcd\n[output truncated]");
    assert_eq!(result.stderr, "\n[output truncated]");
    assert!(result.truncated);
}

#[test]
fn blocked_plans_carry_no_output() {
    let req = request("   ");
    let cwd = resolved(&req);
    match plan_terminal_command(req, cwd, 9) {
        TerminalPlan::Blocked(result) => {
            assert_eq!(result.exit_code, None);
            assert!(result.stdout.is_empty());
            assert_eq!(result.stderr, "command is empty");
            assert!(!result.truncated);
            assert_eq!(result.duration_ms, 9);
            assert_eq!(result.safety.reason.as_deref(), Some("command is empty"));
        }
        TerminalPlan::Execute { .. } => panic!("an empty command was planned"),
    }
}

#[test]
fn truncates_large_output() {
    let mut req = request("printf abcdef");
    req.max_output_bytes = Some(3);
    let result = run_with_shell(
        req,
        ExitOutcome::Exited { success: true, code: Some(0) },
        b"abcdef",
        b"",
    );
    assert_eq!(result.status, TerminalCommandStatus::Success);
    assert!(result.truncated);
    assert!(result.stdout.starts_with("abc"));
}

#[test]
fn lowercased_commands_are_matched_as_given() {
    let d = classify_lowercased_command("SUDO ls");
    assert!(d.allowed);
    let d = classify_lowercased_command("dd if=/dev/zero of=x");
    assert_eq!(d.reason.as_deref(), Some("raw disk copy commands are blocked"));
    let d = classify_lowercased_command("cat .env.local");
    assert_eq!(d.reason.as_deref(), Some("direct access to env files is blocked"));
}

#[test]
fn output_bytes_are_cut_before_decoding() {
    let (bytes, cut) = limit_output_bytes(vec![0xE2, 0x82, 0xAC, 0x41], 2);
    assert!(cut);
    assert_eq!(&bytes[..2], &[0xE2, 0x82]);
    assert_eq!(&bytes[2..], b"\n[output truncated]");
    let (text, cut) = truncate_bytes(vec![0xE2, 0x82, 0xAC, 0x41], 2);
    assert!(cut);
    assert_eq!(text, "\u{FFFD}\n[output truncated]");
    let (bytes, cut) = limit_output_bytes(b"ab".to_vec(), 2);
    assert!(!cut);
    assert_eq!(bytes, b"ab".to_vec());
}
