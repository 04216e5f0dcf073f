//! The dispatcher: each UI request becomes one invocation of the external
//! tool, and the tool's single execution becomes one outcome.

use vstd::prelude::*;
use vstd::string::StringExecFns;
use crate::text::{decimal, decimal_text, decode_lossy, lossy_text, text_of};

verus! {

/// One request of the UI, with its typed parameters.
pub enum Action {
    SearchEcosystem { query: String, min_impact: i32 },
    GetSavedBugs { min_impact: i32 },
    GetStats,
    GetWatchedRepos,
    AddWatchedRepo { repo: String },
    ScanWatched,
    GetInsights { min_impact: i32 },
}

/// The executable and the argument vector of one invocation of the tool.
pub struct Invocation {
    pub program: String,
    pub args: Vec<String>,
}

/// What one execution of the tool left behind: its exit code (`None` where
/// it ended without one) and the raw bytes of its two output streams.
pub struct ProcessOutput {
    pub exit_code: Option<i32>,
    pub stdout: Vec<u8>,
    pub stderr: Vec<u8>,
}

/// The name under which the tool is invoked.
pub open spec fn program_name() -> Seq<char> {
    "bugnosis"@
}

/// The argument vector of each action, in the order the tool parses it.
pub open spec fn args_of(a: Action) -> Seq<Seq<char>> {
    match a {
        Action::SearchEcosystem { query, min_impact } =>
            seq!["search"@, query@, "--min-impact"@, decimal(min_impact as int)],
        Action::GetSavedBugs { min_impact } =>
            seq!["list"@, "--min-impact"@, decimal(min_impact as int), "--json"@],
        Action::GetStats => seq!["stats"@],
        Action::GetWatchedRepos => seq!["watch"@, "list"@],
        Action::AddWatchedRepo { repo } => seq!["watch"@, "add"@, repo@],
        Action::ScanWatched => seq!["watch"@, "scan"@],
        Action::GetInsights { min_impact } =>
            seq!["insights"@, "--min-impact"@, decimal(min_impact as int)],
    }
}

/// The minimum-impact threshold an action carries, if any.
pub open spec fn min_impact_of(a: Action) -> Option<i32> {
    match a {
        Action::SearchEcosystem { min_impact, .. } => Some(min_impact),
        Action::GetSavedBugs { min_impact } => Some(min_impact),
        Action::GetInsights { min_impact } => Some(min_impact),
        _ => None,
    }
}

/// The texts of a sequence of strings.
pub open spec fn texts(v: Seq<String>) -> Seq<Seq<char>> {
    v.map_values(|s: String| s@)
}

/// The confirmation given when a repository was added to the watch list.
pub open spec fn added_message(repo: Seq<char>) -> Seq<char> {
    "Added "@ + repo + " to watch list"@
}

/// The message of a failure to start the tool, around the system's description.
pub open spec fn spawn_failure_message(description: Seq<char>) -> Seq<char> {
    "Failed to execute bugnosis: "@ + description
}

/// Whether an exit code means success.
pub open spec fn exited_ok(exit_code: Option<i32>) -> bool {
    exit_code == Some(0i32)
}

/// The outcome owed for an execution whose chosen stream decoded to `text`:
/// the stdout text on success, the stderr text on failure.
pub open spec fn outcome_spec(a: Action, exit_code: Option<i32>, text: Seq<char>) -> Result<
    Seq<char>,
    Seq<char>,
> {
    if exited_ok(exit_code) {
        match a {
            Action::AddWatchedRepo { repo } => Ok(added_message(repo@)),
            _ => Ok(text),
        }
    } else {
        Err(text)
    }
}

/// The text of each side of a string result.
pub open spec fn result_text(r: Result<String, String>) -> Result<Seq<char>, Seq<char>> {
    match r {
        Ok(s) => Ok(s@),
        Err(s) => Err(s@),
    }
}

/// The outcome owed for a finished execution.
pub open spec fn outcome_of(a: Action, out: ProcessOutput) -> Result<Seq<char>, Seq<char>> {
    if exited_ok(out.exit_code) {
        outcome_spec(a, out.exit_code, lossy_text(out.stdout@))
    } else {
        outcome_spec(a, out.exit_code, lossy_text(out.stderr@))
    }
}

/// The name under which the tool is invoked.
pub fn program() -> (r: String)
    ensures
        r@ == program_name(),
{
    text_of("bugnosis")
}

/// Builds the argument vector of an action.
pub fn build_args(a: &Action) -> (r: Vec<String>)
    ensures
        texts(r@) == args_of(*a),
{
    let mut v: Vec<String> = Vec::new();
    match a {
        Action::SearchEcosystem { query, min_impact } => {
            v.push(text_of("search"));
            v.push(query.clone());
            v.push(text_of("--min-impact"));
            v.push(decimal_text(*min_impact));
        },
        Action::GetSavedBugs { min_impact } => {
            v.push(text_of("list"));
            v.push(text_of("--min-impact"));
            v.push(decimal_text(*min_impact));
            v.push(text_of("--json"));
        },
        Action::GetStats => {
            v.push(text_of("stats"));
        },
        Action::GetWatchedRepos => {
            v.push(text_of("watch"));
            v.push(text_of("list"));
        },
        Action::AddWatchedRepo { repo } => {
            v.push(text_of("watch"));
            v.push(text_of("add"));
            v.push(repo.clone());
        },
        Action::ScanWatched => {
            v.push(text_of("watch"));
            v.push(text_of("scan"));
        },
        Action::GetInsights { min_impact } => {
            v.push(text_of("insights"));
            v.push(text_of("--min-impact"));
            v.push(decimal_text(*min_impact));
        },
    }
    assert(texts(v@) =~= args_of(*a));
    v
}

/// The invocation of the tool that an action stands for.
pub fn invocation(a: &Action) -> (r: Invocation)
    ensures
        r.program@ == program_name(),
        texts(r.args@) == args_of(*a),
{
    Invocation { program: program(), args: build_args(a) }
}

/// Turns the decoded text of the stream that matters into the outcome:
/// stdout's text on exit code zero (a confirmation for an added repository),
/// stderr's text otherwise.
pub fn outcome_from_text(a: &Action, exit_code: Option<i32>, text: String) -> (r: Result<
    String,
    String,
>)
    ensures
        result_text(r) == outcome_spec(*a, exit_code, text@),
{
    if exit_code == Some(0i32) {
        match a {
            Action::AddWatchedRepo { repo } => {
                let mut m = text_of("Added ");
                m.append(repo.as_str());
                m.append(" to watch list");
                Ok(m)
            },
            _ => Ok(text),
        }
    } else {
        Err(text)
    }
}

/// The outcome of one finished execution of the tool: its stdout decoded
/// leniently on exit code zero, its stderr decoded leniently otherwise.
pub fn outcome(a: &Action, out: &ProcessOutput) -> (r: Result<String, String>)
    ensures
        result_text(r) == outcome_of(*a, *out),
{
    let ok = out.exit_code == Some(0i32);
    let text = if ok {
        decode_lossy(&out.stdout)
    } else {
        decode_lossy(&out.stderr)
    };
    outcome_from_text(a, out.exit_code, text)
}

/// The message for a tool that could not be started, around the system's
/// description of why.
pub fn spawn_failure(description: &str) -> (r: String)
    ensures
        r@ == spawn_failure_message(description@),
{
    let mut m = text_of("Failed to execute bugnosis: ");
    m.append(description);
    m
}

/// Where the reachability check connects, and how long it waits at most.
pub struct ProbeTarget {
    pub address: (u8, u8, u8, u8),
    pub port: u16,
    pub timeout_ms: u64,
}

/// The reachability check's target: a public DNS server on port 53, with a
/// 1.5 s bound on the connection attempt.
pub fn online_probe() -> (r: ProbeTarget)
    ensures
        r.address == (8u8, 8u8, 8u8, 8u8),
        r.port == 53,
        r.timeout_ms == 1500,
{
    ProbeTarget { address: (8, 8, 8, 8), port: 53, timeout_ms: 1500 }
}

/// Every action's argument vector starts with its subcommand, and an action
/// that carries a minimum-impact threshold passes it as `--min-impact`
/// followed at once by the plain decimal text of the value.
pub proof fn min_impact_flag_law(a: Action)
    ensures
        args_of(a).len() >= 1,
        min_impact_of(a) is Some ==> exists|i: int|
            0 <= i && i + 1 < args_of(a).len() && args_of(a)[i] == "--min-impact"@
                && #[trigger] args_of(a)[i + 1] == decimal(min_impact_of(a)->0 as int),
{
    match a {
        Action::SearchEcosystem { query, min_impact } => {
            assert(args_of(a)[2int + 1] == decimal(min_impact as int));
        },
        Action::GetSavedBugs { min_impact } => {
            assert(args_of(a)[1int + 1] == decimal(min_impact as int));
        },
        Action::GetInsights { min_impact } => {
            assert(args_of(a)[1int + 1] == decimal(min_impact as int));
        },
        _ => {},
    }
}

/// A non-zero (or missing) exit code gives a failure carrying stderr's text;
/// exit code zero gives success carrying stdout's text, except for adding a
/// watched repository, whose success carries the confirmation whatever
/// stdout held.
pub proof fn outcome_law(a: Action, out: ProcessOutput)
    ensures
        !exited_ok(out.exit_code) ==> outcome_of(a, out) == Err::<Seq<char>, Seq<char>>(
            lossy_text(out.stderr@),
        ),
        exited_ok(out.exit_code) && !(a is AddWatchedRepo) ==> outcome_of(a, out) == Ok::<
            Seq<char>,
            Seq<char>,
        >(lossy_text(out.stdout@)),
        exited_ok(out.exit_code) && a is AddWatchedRepo ==> outcome_of(a, out) == Ok::<
            Seq<char>,
            Seq<char>,
        >(added_message(a->AddWatchedRepo_repo@)),
{
}

} // verus!
