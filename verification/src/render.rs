//! Rendering the synthesized body as source text.
//!
//! The transformed definition keeps every non-body attribute verbatim; what
//! is new is the body, and this module states its exact text: the argument
//! summary statement, the guarded execution of the original body (through a
//! suspending or blocking immediately-invoked unit), the log statement the
//! strategy asks for, and the final result expression.

use vstd::prelude::*;

use crate::rewrite::InstrumentedFn;
use crate::rewrite::LogStrategy;
use crate::severity::LogLevel;
use crate::severity::level_name_spec;

verus! {

/// The array elements of the argument summary statement: one debug
/// formatting per binding, in declaration order, each followed by a comma.
pub open spec fn args_elems_text(bindings: Seq<Seq<char>>) -> Seq<char>
    decreases bindings.len(),
{
    if bindings.len() == 0 {
        Seq::empty()
    } else {
        args_elems_text(bindings.drop_last()) + "format!(\"{:?}\", "@ + bindings.last()
            + ").to_string(), "@
    }
}

/// The argument summary statement: a lazily evaluated, order-preserving
/// reduction that joins the renderings with `", "`, leaving the empty
/// string for a parameter-free function.
pub open spec fn args_stmt_text(bindings: Seq<Seq<char>>) -> Seq<char> {
    "let args = ["@ + args_elems_text(bindings)
        + "].iter().cloned().reduce(|acc, arg| format!(\"{acc}, {arg}\")).unwrap_or(String::new());"@
}

/// The guarded execution statement: the original body runs as an
/// immediately-invoked unit, suspending iff the original function does, and
/// its result is captured as a value.
pub open spec fn call_stmt_text(is_async: bool, body: Seq<char>) -> Seq<char> {
    "let result = ("@ + (if is_async {
        "async "@
    } else {
        Seq::empty()
    }) + "|| "@ + body + ")()"@ + (if is_async {
        ".await"@
    } else {
        Seq::empty()
    }) + ";"@
}

/// The success arm of the two-armed branch: a print at the configured
/// severity where the policy allows it, a silent catch-all arm otherwise.
pub open spec fn ok_arm_text(log_ok: bool, level: LogLevel, name: Seq<char>) -> Seq<char> {
    if log_ok {
        "::core::result::Result::Ok(_) => println!(\"[{}] {}({args}) = {result:?}\", \""@
            + level_name_spec(level) + "\", \""@ + name + "\")"@
    } else {
        "_ => {}"@
    }
}

/// The log statement of a strategy. An error-carrying return gets the
/// two-armed branch whose error arm always prints, tagged `ERROR`; a plain
/// return gets one unconditional print, or nothing at all.
pub open spec fn log_stmt_text(strategy: LogStrategy, level: LogLevel, name: Seq<char>) -> Seq<
    char,
> {
    match strategy {
        LogStrategy::MatchResult { log_ok } => {
            "match result { ::core::result::Result::Err(_) => println!(\"[ERROR] {}({args}) = {result:?}\", \""@
                + name + "\"), "@ + ok_arm_text(log_ok, level, name) + ", }; "@
        },
        LogStrategy::PrintValue => {
            "println!(\"[{}] {}({args}) = {result:?}\", \""@ + level_name_spec(level) + "\", \""@
                + name + "\"); "@
        },
        LogStrategy::Silent => Seq::empty(),
    }
}

/// The whole synthesized body: argument rendering, guarded execution, the
/// log statement, and the captured result propagated unchanged.
pub open spec fn body_text_spec(g: InstrumentedFn, body: Seq<char>) -> Seq<char> {
    "{ "@ + args_stmt_text(g.bindings@.map_values(|s: String| s@)) + " "@ + call_stmt_text(
        g.sig.is_async,
        body,
    ) + " "@ + log_stmt_text(g.strategy, g.level, g.sig.name@) + "result }"@
}

fn render_args_elems(bindings: &Vec<String>) -> (r: String)
    ensures
        r@ == args_elems_text(bindings@.map_values(|s: String| s@)),
{
    let ghost views = bindings@.map_values(|s: String| s@);
    let mut r = String::new();
    let mut i: usize = 0;
    while i < bindings.len()
        invariant
            0 <= i <= bindings@.len(),
            views == bindings@.map_values(|s: String| s@),
            views.len() == bindings@.len(),
            r@ == args_elems_text(views.take(i as int)),
        decreases bindings@.len() - i,
    {
        r.append("format!(\"{:?}\", ");
        r.append(bindings[i].as_str());
        r.append(").to_string(), ");
        proof {
            assert(views.take(i + 1).drop_last() =~= views.take(i as int));
            assert(views.take(i + 1).last() == views[i as int]);
            assert(r@ =~= args_elems_text(views.take(i + 1)));
        }
        i += 1;
    }
    proof {
        assert(views.take(bindings@.len() as int) =~= views);
    }
    r
}

fn render_args_stmt(bindings: &Vec<String>) -> (r: String)
    ensures
        r@ == args_stmt_text(bindings@.map_values(|s: String| s@)),
{
    let mut r = String::from_str("let args = [");
    let elems = render_args_elems(bindings);
    r.append(elems.as_str());
    r.append(
        "].iter().cloned().reduce(|acc, arg| format!(\"{acc}, {arg}\")).unwrap_or(String::new());",
    );
    proof {
        assert(r@ =~= args_stmt_text(bindings@.map_values(|s: String| s@)));
    }
    r
}

fn render_call_stmt(is_async: bool, body: &str) -> (r: String)
    ensures
        r@ == call_stmt_text(is_async, body@),
{
    let mut r = String::from_str("let result = (");
    if is_async {
        r.append("async ");
    }
    r.append("|| ");
    r.append(body);
    r.append(")()");
    if is_async {
        r.append(".await");
    }
    r.append(";");
    proof {
        assert(r@ =~= call_stmt_text(is_async, body@));
    }
    r
}

fn render_log_stmt(strategy: LogStrategy, level: LogLevel, name: &str) -> (r: String)
    ensures
        r@ == log_stmt_text(strategy, level, name@),
{
    match strategy {
        LogStrategy::MatchResult { log_ok } => {
            let mut r = String::from_str(
                "match result { ::core::result::Result::Err(_) => println!(\"[ERROR] {}({args}) = {result:?}\", \"",
            );
            r.append(name);
            r.append("\"), ");
            if log_ok {
                r.append(
                    "::core::result::Result::Ok(_) => println!(\"[{}] {}({args}) = {result:?}\", \"",
                );
                r.append(level.name());
                r.append("\", \"");
                r.append(name);
                r.append("\")");
            } else {
                r.append("_ => {}");
            }
            r.append(", }; ");
            proof {
                assert(r@ =~= log_stmt_text(strategy, level, name@));
            }
            r
        },
        LogStrategy::PrintValue => {
            let mut r = String::from_str("println!(\"[{}] {}({args}) = {result:?}\", \"");
            r.append(level.name());
            r.append("\", \"");
            r.append(name);
            r.append("\"); ");
            proof {
                assert(r@ =~= log_stmt_text(strategy, level, name@));
            }
            r
        },
        LogStrategy::Silent => {
            let r = String::new();
            proof {
                assert(r@ =~= log_stmt_text(strategy, level, name@));
            }
            r
        },
    }
}

/// Renders the whole synthesized body as source text, with the original
/// body's own source spliced into the guarded unit. Everything outside the
/// body is preserved by the caller verbatim.
pub fn render_body(g: &InstrumentedFn, body_src: &str) -> (r: String)
    ensures
        r@ == body_text_spec(*g, body_src@),
{
    let mut r = String::from_str("{ ");
    let args_stmt = render_args_stmt(&g.bindings);
    r.append(args_stmt.as_str());
    r.append(" ");
    let call_stmt = render_call_stmt(g.sig.is_async, body_src);
    r.append(call_stmt.as_str());
    r.append(" ");
    let log_stmt = render_log_stmt(g.strategy, g.level, g.sig.name.as_str());
    r.append(log_stmt.as_str());
    r.append("result }");
    proof {
        assert(r@ =~= body_text_spec(*g, body_src@));
    }
    r
}

} // verus!
