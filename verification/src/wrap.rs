//! Wrapping combinators: the instrumented calling convention as a
//! higher-order function.
//!
//! Each combinator does at call time exactly what a synthesized body does:
//! it runs the original logic once as a guarded unit, renders the result
//! only where a line is printed, computes the one line the policy allows,
//! and hands back the captured result unchanged beside that line.

use vstd::prelude::*;

use crate::policy::decision_spec;
use crate::policy::format_line;
use crate::policy::line_spec;
use crate::policy::run_guarded;
use crate::severity::LogLevel;
use crate::severity::level_name_spec;
use crate::severity::level_rank;
use crate::signature::ReturnShape;

verus! {

/// An instrumented call with a plain return: the result is whatever the
/// original logic produced, and the line follows the plain-return policy,
/// its rendering taken from `render` applied to that result.
pub fn logged_call_plain<T, F: FnOnce() -> T, G: FnOnce(&T) -> String>(
    body: F,
    render: G,
    level: LogLevel,
    name: &str,
    args: &str,
) -> (r: (T, Option<String>))
    requires
        call_requires(body, ()),
        forall|t: &T| call_requires(render, (t,)),
    ensures
        call_ensures(body, (), r.0),
        decision_spec(ReturnShape::Plain, false, level) is None ==> r.1 is None,
        decision_spec(ReturnShape::Plain, false, level) matches Some(tag) ==> (r.1 matches Some(
            line,
        ) && exists|rendered: String|
            call_ensures(render, (&r.0,), rendered) && line@ == line_spec(
                tag,
                name@,
                args@,
                rendered@,
            )),
{
    let result = run_guarded(body);
    let line = if level.below(LogLevel::Error) {
        let rendered = render(&result);
        Some(format_line(level.name(), name, args, rendered.as_str()))
    } else {
        None
    };
    (result, line)
}

/// An instrumented call with an error-carrying return: the result is
/// whatever the original logic produced — an early exit inside it included
/// — and the line follows the two-armed policy for that outcome, its
/// rendering taken from `render` applied to the result.
pub fn logged_call_result<A, B, F: FnOnce() -> Result<A, B>, G: FnOnce(&Result<A, B>) -> String>(
    body: F,
    render: G,
    level: LogLevel,
    name: &str,
    args: &str,
) -> (r: (Result<A, B>, Option<String>))
    requires
        call_requires(body, ()),
        forall|t: &Result<A, B>| call_requires(render, (t,)),
    ensures
        call_ensures(body, (), r.0),
        decision_spec(ReturnShape::ErrorCarrying, r.0 is Err, level) is None ==> r.1 is None,
        decision_spec(ReturnShape::ErrorCarrying, r.0 is Err, level) matches Some(tag) ==> (
        r.1 matches Some(line) && exists|rendered: String|
            call_ensures(render, (&r.0,), rendered) && line@ == line_spec(
                tag,
                name@,
                args@,
                rendered@,
            )),
{
    let result = run_guarded(body);
    let line = match &result {
        Result::Err(_) => {
            let rendered = render(&result);
            Some(format_line("ERROR", name, args, rendered.as_str()))
        },
        Result::Ok(_) => {
            if level.below(LogLevel::Error) {
                let rendered = render(&result);
                Some(format_line(level.name(), name, args, rendered.as_str()))
            } else {
                None
            }
        },
    };
    (result, line)
}

} // verus!
