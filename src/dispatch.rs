use vstd::prelude::*;

use crate::validation::{
    format_message, is_valid_format, possible_validation, validate_format, validate_repo_path,
    view_opt, ValidationError,
};

verus! {

/// History entries asked for when the caller names no limit.
pub const DEFAULT_HISTORY_LIMIT: usize = 50;

/// Most history entries ever asked for; larger requests are clamped to it.
pub const MAX_HISTORY_LIMIT: usize = 1000;

/// Exit code reported when the tool did not run or its exit code is unknown.
pub const FAILURE_EXIT_CODE: i32 = 1;

/// What the caller asks a scan of.
#[derive(Debug, Clone)]
pub struct ScanOptions {
    pub repo: String,
    pub format: String,
}

/// What the caller asks a sync check of.
#[derive(Debug, Clone)]
pub struct SyncCheckOptions {
    pub repo: String,
    pub format: String,
}

/// The outcome of one run of the analysis tool, or of a request refused before it.
#[derive(Debug, Clone)]
pub struct ScanResult {
    pub success: bool,
    pub output: String,
    pub exit_code: i32,
    pub error: Option<String>,
}

/// A refusal: no success, no output, the failure exit code and the message.
pub open spec fn is_failure(r: ScanResult, message: Seq<char>) -> bool {
    &&& !r.success
    &&& r.output@.len() == 0
    &&& r.exit_code == FAILURE_EXIT_CODE
    &&& r.error matches Some(e) && e@ == message
}

/// A run counts as successful when the tool exited with 0 or 1 (findings
/// present) and wrote nothing to standard error.
pub open spec fn succeeded(exit_code: i32, stderr: Seq<char>) -> bool {
    exit_code < 2 && stderr.len() == 0
}

/// The result reported when a request fails before the tool's output is in.
pub fn failure_result(message: String) -> (r: ScanResult)
    ensures
        !r.success,
        r.output@ == Seq::<char>::empty(),
        r.exit_code == FAILURE_EXIT_CODE,
        r.error == Some(message),
{
    ScanResult { success: false, output: String::new(), exit_code: FAILURE_EXIT_CODE, error: Some(message) }
}

/// Classifies what a finished run of the tool produced; `code` is `None`
/// when the process ended without an exit code (it was killed by a signal).
/// A missing code is replaced by the failure exit code, and the run is then
/// judged by the same rule as any other.
pub fn classify_output(stdout: String, stderr: String, code: Option<i32>) -> (r: ScanResult)
    ensures
        r.exit_code == (match code {
            Some(c) => c,
            None => FAILURE_EXIT_CODE,
        }),
        r.success == succeeded(r.exit_code, stderr@),
        r.output == stdout,
        r.error == (if stderr@.len() == 0 { None } else { Some(stderr) }),
{
    let exit_code = match code {
        Some(c) => c,
        None => FAILURE_EXIT_CODE,
    };
    let quiet = stderr.as_str().is_empty();
    let success = exit_code < 2 && quiet;
    ScanResult { success, output: stdout, exit_code, error: if quiet { None } else { Some(stderr) } }
}

/// The number of history entries asked for, given the caller's request.
pub open spec fn clamped_limit(limit: Option<usize>) -> nat {
    match limit {
        Some(n) => if n <= MAX_HISTORY_LIMIT { n as nat } else { MAX_HISTORY_LIMIT as nat },
        None => DEFAULT_HISTORY_LIMIT as nat,
    }
}

/// Clamps a requested history size to the ceiling; no request is refused.
pub fn clamp_history_limit(limit: Option<usize>) -> (r: usize)
    ensures
        r == clamped_limit(limit),
{
    let n = match limit {
        Some(n) => n,
        None => DEFAULT_HISTORY_LIMIT,
    };
    if n <= MAX_HISTORY_LIMIT { n } else { MAX_HISTORY_LIMIT }
}

pub open spec fn digit_char(d: nat) -> char {
    seq!['0', '1', '2', '3', '4', '5', '6', '7', '8', '9'][d as int]
}

/// The decimal digits of a number, most significant first.
pub open spec fn decimal(n: nat) -> Seq<char>
    decreases n,
{
    if n < 10 {
        seq![digit_char(n)]
    } else {
        decimal(n / 10).push(digit_char(n % 10))
    }
}

fn digit_str(d: usize) -> (r: &'static str)
    requires
        d < 10,
    ensures
        r@ == seq![digit_char(d as nat)],
{
    proof {
        reveal_strlit("0");
        reveal_strlit("1");
        reveal_strlit("2");
        reveal_strlit("3");
        reveal_strlit("4");
        reveal_strlit("5");
        reveal_strlit("6");
        reveal_strlit("7");
        reveal_strlit("8");
        reveal_strlit("9");
    }
    match d {
        0 => "0",
        1 => "1",
        2 => "2",
        3 => "3",
        4 => "4",
        5 => "5",
        6 => "6",
        7 => "7",
        8 => "8",
        _ => "9",
    }
}

/// The decimal digits of a number, as text.
fn usize_to_decimal(n: usize) -> (r: String)
    ensures
        r@ == decimal(n as nat),
    decreases n,
{
    if n < 10 {
        String::from_str(digit_str(n))
    } else {
        let mut r = usize_to_decimal(n / 10);
        r.append(digit_str(n % 10));
        r
    }
}

/// Arguments of a report run: the subcommand, the repository and the format,
/// with `--no-save` where the run must not be recorded.
pub open spec fn report_tokens(sub: Seq<char>, path: Seq<char>, format: Seq<char>, no_save: bool) -> Seq<Seq<char>> {
    let tail = if no_save {
        seq!["--no-save"@]
    } else {
        Seq::<Seq<char>>::empty()
    };
    seq![sub, "--repo"@, path, "--format"@, format] + tail
}

/// Arguments of a history run, with the repository when one is named.
pub open spec fn history_tokens(repo: Option<Seq<char>>, limit: nat) -> Seq<Seq<char>> {
    let head = match repo {
        Some(p) => seq!["history"@, "--repo"@, p],
        None => seq!["history"@],
    };
    head + seq!["--format"@, "json"@, "--limit"@, decimal(limit)]
}

/// Arguments of a stats run.
pub open spec fn stats_tokens(path: Seq<char>) -> Seq<Seq<char>> {
    seq!["stats"@, "--repo"@, path]
}

/// How a report request ends, given how its repository path was judged.
pub open spec fn report_planned(
    judged: Result<String, ValidationError>,
    r: Result<Vec<String>, ScanResult>,
    sub: Seq<char>,
    format: Seq<char>,
    no_save: bool,
) -> bool {
    match judged {
        Ok(p) => r matches Ok(args) && args.deep_view() == report_tokens(sub, p@, format, no_save),
        Err(e) => r matches Err(f) && is_failure(f, e.text()),
    }
}

/// How a request answered by raw text ends before the run, given how its
/// repository path was judged and what the arguments would be with that path.
pub open spec fn text_planned(
    judged: Result<String, ValidationError>,
    r: Result<Vec<String>, String>,
    tokens: Seq<Seq<char>>,
) -> bool {
    match judged {
        Ok(p) => r matches Ok(args) && args.deep_view() == tokens,
        Err(e) => r matches Err(m) && m@ == e.text(),
    }
}

fn push_token(v: &mut Vec<String>, s: &str)
    ensures
        final(v).deep_view() == old(v).deep_view().push(s@),
{
    v.push(String::from_str(s));
    assert(final(v).deep_view() =~= old(v).deep_view().push(s@));
}

fn report_args(sub: &str, path: &str, format: &str, no_save: bool) -> (r: Vec<String>)
    ensures
        r.deep_view() == report_tokens(sub@, path@, format@, no_save),
{
    let mut v: Vec<String> = Vec::new();
    push_token(&mut v, sub);
    push_token(&mut v, "--repo");
    push_token(&mut v, path);
    push_token(&mut v, "--format");
    push_token(&mut v, format);
    if no_save {
        push_token(&mut v, "--no-save");
    }
    assert(v.deep_view() =~= report_tokens(sub@, path@, format@, no_save));
    v
}

fn plan_report(repo: &str, format: &str, home: Option<&str>, sub: &str, no_save: bool) -> (r: Result<Vec<String>, ScanResult>)
    ensures
        !is_valid_format(format@) ==> (r matches Err(f) && is_failure(f, format_message())),
        is_valid_format(format@) ==> exists|judged: Result<String, ValidationError>|
            #[trigger] possible_validation(repo@, judged) && report_planned(judged, r, sub@, format@, no_save),
{
    match validate_format(format) {
        Err(m) => {
            return Err(failure_result(m));
        },
        Ok(()) => {},
    }
    let judged = validate_repo_path(repo, home);
    let r = match &judged {
        Ok(p) => Ok(report_args(sub, p.as_str(), format, no_save)),
        Err(e) => Err(failure_result(e.to_string())),
    };
    assert(possible_validation(repo@, judged) && report_planned(judged, r, sub@, format@, no_save));
    r
}

/// Decides what a scan runs, before anything is spawned: the tool's arguments,
/// or the refusal to report. The format is checked before the path.
pub fn plan_scan(options: &ScanOptions, home: Option<&str>) -> (r: Result<Vec<String>, ScanResult>)
    ensures
        !is_valid_format(options.format@) ==> (r matches Err(f) && is_failure(f, format_message())),
        is_valid_format(options.format@) ==> exists|judged: Result<String, ValidationError>|
            #[trigger] possible_validation(options.repo@, judged)
                && report_planned(judged, r, "scan"@, options.format@, true),
{
    plan_report(options.repo.as_str(), options.format.as_str(), home, "scan", true)
}

/// Decides what a sync check runs, before anything is spawned: the tool's
/// arguments, or the refusal to report. The format is checked before the path.
pub fn plan_sync_check(options: &SyncCheckOptions, home: Option<&str>) -> (r: Result<Vec<String>, ScanResult>)
    ensures
        !is_valid_format(options.format@) ==> (r matches Err(f) && is_failure(f, format_message())),
        is_valid_format(options.format@) ==> exists|judged: Result<String, ValidationError>|
            #[trigger] possible_validation(options.repo@, judged)
                && report_planned(judged, r, "sync-check"@, options.format@, false),
{
    plan_report(options.repo.as_str(), options.format.as_str(), home, "sync-check", false)
}

/// Decides what a history request runs: the tool's arguments with the limit
/// clamped, or the message for a repository path that was refused.
/// As for every request, the path is judged before the tool is looked for;
/// requests answered by raw text report a refusal as its message alone.
pub fn plan_history(repo: Option<&str>, limit: Option<usize>, home: Option<&str>) -> (r: Result<Vec<String>, String>)
    ensures
        repo is None ==> (r matches Ok(args) && args.deep_view() == history_tokens(None, clamped_limit(limit))),
        repo matches Some(p) ==> exists|judged: Result<String, ValidationError>|
            #[trigger] possible_validation(p@, judged) && text_planned(
                judged,
                r,
                history_tokens(
                    match judged {
                        Ok(c) => Some(c@),
                        Err(_) => None,
                    },
                    clamped_limit(limit),
                ),
            ),
{
    let n = clamp_history_limit(limit);
    match repo {
        None => Ok(history_args(None, n)),
        Some(p) => {
            let judged = validate_repo_path(p, home);
            let r = match &judged {
                Err(e) => Err(e.to_string()),
                Ok(c) => Ok(history_args(Some(c.as_str()), n)),
            };
            assert(possible_validation(p@, judged) && text_planned(
                judged,
                r,
                history_tokens(
                    match judged {
                        Ok(c) => Some(c@),
                        Err(_) => None,
                    },
                    clamped_limit(limit),
                ),
            ));
            r
        },
    }
}

fn history_args(repo: Option<&str>, limit: usize) -> (r: Vec<String>)
    ensures
        r.deep_view() == history_tokens(view_opt(repo), limit as nat),
{
    let mut v: Vec<String> = Vec::new();
    push_token(&mut v, "history");
    match repo {
        Some(p) => {
            push_token(&mut v, "--repo");
            push_token(&mut v, p);
        },
        None => {},
    }
    push_token(&mut v, "--format");
    push_token(&mut v, "json");
    push_token(&mut v, "--limit");
    let digits = usize_to_decimal(limit);
    push_token(&mut v, digits.as_str());
    assert(v.deep_view() =~= history_tokens(view_opt(repo), limit as nat));
    v
}

/// Decides what a stats request runs: the tool's arguments, or the message
/// for a repository path that was refused.
pub fn plan_stats(repo: &str, home: Option<&str>) -> (r: Result<Vec<String>, String>)
    ensures
        exists|judged: Result<String, ValidationError>|
            #[trigger] possible_validation(repo@, judged) && text_planned(
                judged,
                r,
                match judged {
                    Ok(c) => stats_tokens(c@),
                    Err(_) => Seq::<Seq<char>>::empty(),
                },
            ),
{
    let judged = validate_repo_path(repo, home);
    let r = match &judged {
        Err(e) => Err(e.to_string()),
        Ok(c) => {
            let mut v: Vec<String> = Vec::new();
            push_token(&mut v, "stats");
            push_token(&mut v, "--repo");
            push_token(&mut v, c.as_str());
            assert(v.deep_view() =~= stats_tokens(c@));
            Ok(v)
        },
    };
    assert(possible_validation(repo@, judged) && text_planned(
        judged,
        r,
        match judged {
            Ok(c) => stats_tokens(c@),
            Err(_) => Seq::<Seq<char>>::empty(),
        },
    ));
    r
}

} // verus!
