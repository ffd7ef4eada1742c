//! The logging decision and the printed line.
//!
//! One call of an instrumented function produces at most one log line. The
//! decision which tag, if any, is printed depends on the return shape, the
//! outcome of the original logic, and the configured severity:
//!
//! * error-carrying return, error outcome: always print, tagged `ERROR`,
//!   regardless of the configured severity;
//! * error-carrying return, success outcome: print tagged with the
//!   configured severity if it is below `Error`, else suppress;
//! * plain return: print tagged with the configured severity if it is
//!   below `Error`, else suppress.

use vstd::prelude::*;

use crate::severity::LogLevel;
use crate::severity::level_name_spec;
use crate::severity::level_rank;
use crate::signature::ReturnShape;

verus! {

/// The text of a printed log line:
/// `[<TAG>] <function-name>(<argument-summary>) = <rendered-result>`.
pub open spec fn line_spec(
    tag: Seq<char>,
    name: Seq<char>,
    args: Seq<char>,
    rendered: Seq<char>,
) -> Seq<char> {
    "["@ + tag + "] "@ + name + "("@ + args + ") = "@ + rendered
}

/// The policy table: the tag of the one line printed for this call, or
/// `None` where the line is suppressed.
pub open spec fn decision_spec(shape: ReturnShape, is_err: bool, level: LogLevel) -> Option<
    Seq<char>,
> {
    match shape {
        ReturnShape::ErrorCarrying => if is_err {
            Some("ERROR"@)
        } else if level_rank(level) < level_rank(LogLevel::Error) {
            Some(level_name_spec(level))
        } else {
            None
        },
        ReturnShape::Plain => if level_rank(level) < level_rank(LogLevel::Error) {
            Some(level_name_spec(level))
        } else {
            None
        },
    }
}

/// A plain-return call prints exactly one line, tagged with the configured
/// severity, when that severity is below `Error`, and nothing at `Error`.
pub proof fn lemma_plain_policy(is_err: bool, level: LogLevel)
    ensures
        level != LogLevel::Error ==> decision_spec(ReturnShape::Plain, is_err, level) == Some(
            level_name_spec(level),
        ),
        level == LogLevel::Error ==> decision_spec(ReturnShape::Plain, is_err, level) is None,
{
}

/// An error outcome of an error-carrying call is always printed, tagged
/// `ERROR`, whatever the configured severity.
pub proof fn lemma_error_always_logged(level: LogLevel)
    ensures
        decision_spec(ReturnShape::ErrorCarrying, true, level) == Some("ERROR"@),
{
}

/// A success outcome of an error-carrying call follows exactly the
/// plain-return policy at the configured severity.
pub proof fn lemma_success_follows_plain(level: LogLevel)
    ensures
        decision_spec(ReturnShape::ErrorCarrying, false, level) == decision_spec(
            ReturnShape::Plain,
            false,
            level,
        ),
{
}

/// Builds the printed line from its four pieces.
pub fn format_line(tag: &str, name: &str, args: &str, rendered: &str) -> (r: String)
    ensures
        r@ == line_spec(tag@, name@, args@, rendered@),
{
    let mut r = String::from_str("[");
    r.append(tag);
    r.append("] ");
    r.append(name);
    r.append("(");
    r.append(args);
    r.append(") = ");
    r.append(rendered);
    proof {
        assert(r@ =~= line_spec(tag@, name@, args@, rendered@));
    }
    r
}

/// Guarded execution: runs the original logic exactly once and captures its
/// result as a value. The logic runs as an isolated unit, so an early exit
/// inside it ends only that unit; the caller always receives the captured
/// result and can log after it, whatever way the unit completed.
pub fn run_guarded<T, F: FnOnce() -> T>(f: F) -> (r: T)
    requires
        call_requires(f, ()),
    ensures
        call_ensures(f, (), r),
{
    f()
}

/// The one log line of a call with a plain return: tagged with the
/// configured severity when it is below `Error`, suppressed at `Error`.
pub fn plain_log_line(level: LogLevel, name: &str, args: &str, rendered: &str) -> (r: Option<
    String,
>)
    ensures
        decision_spec(ReturnShape::Plain, false, level) is None ==> r is None,
        decision_spec(ReturnShape::Plain, false, level) matches Some(tag) ==> (r matches Some(line)
            && line@ == line_spec(tag, name@, args@, rendered@)),
{
    if level.below(LogLevel::Error) {
        Some(format_line(level.name(), name, args, rendered))
    } else {
        None
    }
}

/// The one log line of a call with an error-carrying return: an error
/// outcome is always printed, tagged `ERROR`; a success outcome follows the
/// plain policy at the configured severity.
pub fn result_log_line<T, E>(
    level: LogLevel,
    outcome: &Result<T, E>,
    name: &str,
    args: &str,
    rendered: &str,
) -> (r: Option<String>)
    ensures
        decision_spec(ReturnShape::ErrorCarrying, outcome is Err, level) is None ==> r is None,
        decision_spec(ReturnShape::ErrorCarrying, outcome is Err, level) matches Some(tag) ==> (
        r matches Some(line) && line@ == line_spec(tag, name@, args@, rendered@)),
{
    match outcome {
        Result::Err(_) => Some(format_line("ERROR", name, args, rendered)),
        Result::Ok(_) => if level.below(LogLevel::Error) {
            Some(format_line(level.name(), name, args, rendered))
        } else {
            None
        },
    }
}

} // verus!
