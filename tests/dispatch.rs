use bugnosis_host::dispatch::{
    build_args, invocation, online_probe, outcome, outcome_from_text, program, spawn_failure,
    Action, ProcessOutput,
};
use bugnosis_host::text::decimal_text;

fn args(a: &Action) -> Vec<String> {
    build_args(a)
}

fn out(code: Option<i32>, stdout: &[u8], stderr: &[u8]) -> ProcessOutput {
    ProcessOutput { exit_code: code, stdout: stdout.to_vec(), stderr: stderr.to_vec() }
}

#[test]
fn search_args_in_order() {
    let a = Action::SearchEcosystem { query: "crash on boot".to_string(), min_impact: 100 };
    assert_eq!(args(&a), vec!["search", "crash on boot", "--min-impact", "100"]);
}

#[test]
fn saved_bugs_args_in_order() {
    let a = Action::GetSavedBugs { min_impact: 50 };
    assert_eq!(args(&a), vec!["list", "--min-impact", "50", "--json"]);
}

#[test]
fn parameterless_args() {
    assert_eq!(args(&Action::GetStats), vec!["stats"]);
    assert_eq!(args(&Action::GetWatchedRepos), vec!["watch", "list"]);
    assert_eq!(args(&Action::ScanWatched), vec!["watch", "scan"]);
}

#[test]
fn add_watch_args_in_order() {
    let a = Action::AddWatchedRepo { repo: "owner/project".to_string() };
    assert_eq!(args(&a), vec!["watch", "add", "owner/project"]);
}

#[test]
fn insights_args_with_negative_threshold() {
    let a = Action::GetInsights { min_impact: -7 };
    assert_eq!(args(&a), vec!["insights", "--min-impact", "-7"]);
}

#[test]
fn args_are_deterministic() {
    let a = Action::SearchEcosystem { query: "leak".to_string(), min_impact: 3 };
    assert_eq!(args(&a), args(&a));
}

#[test]
fn decimal_matches_to_string() {
    for n in [0, 1, 9, 10, 50, 99, 100, 12345, -1, -10, i32::MAX, i32::MIN] {
        assert_eq!(decimal_text(n), n.to_string());
    }
}

#[test]
fn invocation_names_the_tool() {
    let inv = invocation(&Action::GetStats);
    assert_eq!(program(), "bugnosis");
    assert_eq!(inv.program, "bugnosis");
    assert_eq!(inv.args, vec!["stats"]);
}

#[test]
fn nonzero_exit_gives_stderr() {
    let r = outcome(&Action::GetStats, &out(Some(2), b"ignored", b"database locked"));
    assert_eq!(r, Err("database locked".to_string()));
}

#[test]
fn missing_exit_code_is_failure() {
    let r = outcome(&Action::ScanWatched, &out(None, b"partial", b"killed"));
    assert_eq!(r, Err("killed".to_string()));
}

#[test]
fn zero_exit_gives_stdout() {
    let r = outcome(&Action::GetWatchedRepos, &out(Some(0), b"[\"a/b\"]", b"warning"));
    assert_eq!(r, Ok("[\"a/b\"]".to_string()));
}

#[test]
fn invalid_bytes_are_replaced() {
    let r = outcome(&Action::GetStats, &out(Some(0), b"ok\xffend", b""));
    assert_eq!(r, Ok("ok\u{FFFD}end".to_string()));
    let r = outcome(&Action::GetStats, &out(Some(1), b"", b"bad\xfe"));
    assert_eq!(r, Err("bad\u{FFFD}".to_string()));
}

#[test]
fn add_watch_success_ignores_stdout() {
    let a = Action::AddWatchedRepo { repo: "owner/project".to_string() };
    let r = outcome(&a, &out(Some(0), b"whatever the tool said", b""));
    assert_eq!(r, Ok("Added owner/project to watch list".to_string()));
}

#[test]
fn add_watch_failure_gives_stderr() {
    let a = Action::AddWatchedRepo { repo: "owner/project".to_string() };
    let r = outcome(&a, &out(Some(1), b"", b"no such repository"));
    assert_eq!(r, Err("no such repository".to_string()));
}

#[test]
fn outcome_from_text_follows_exit_code() {
    let a = Action::GetInsights { min_impact: 1 };
    assert_eq!(outcome_from_text(&a, Some(0), "x".to_string()), Ok("x".to_string()));
    assert_eq!(outcome_from_text(&a, Some(3), "y".to_string()), Err("y".to_string()));
}

#[test]
fn spawn_failure_names_the_cause() {
    assert_eq!(
        spawn_failure("No such file or directory (os error 2)"),
        "Failed to execute bugnosis: No such file or directory (os error 2)"
    );
}

#[test]
fn list_bugs_against_echoing_stub() {
    // A stub tool that echoes its arguments to stdout and exits zero.
    let inv = invocation(&Action::GetSavedBugs { min_impact: 50 });
    let echoed = inv.args.join(" ");
    let r = outcome(
        &Action::GetSavedBugs { min_impact: 50 },
        &out(Some(0), echoed.as_bytes(), b""),
    );
    assert!(r.unwrap().contains("list --min-impact 50"));
}

#[test]
fn probe_target_is_bounded() {
    let p = online_probe();
    assert_eq!(p.address, (8, 8, 8, 8));
    assert_eq!(p.port, 53);
    assert_eq!(p.timeout_ms, 1500);
}
