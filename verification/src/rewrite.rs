//! The body rewriter: synthesizes the instrumented function's new body.
//!
//! The new body keeps the original signature untouched and replaces the
//! body with four ordered steps: render the argument summary, run the
//! original logic exactly once inside an isolated unit (suspending iff the
//! original is suspending), emit the log statement the policy asks for, and
//! return the captured result unchanged.

use vstd::prelude::*;

use crate::policy::decision_spec;
use crate::severity::LogLevel;
use crate::severity::TransformError;
use crate::severity::level_name_spec;
use crate::severity::level_rank;
use crate::severity::parse_level_spec;
use crate::signature::FnSig;
use crate::signature::ReturnShape;
use crate::signature::analyze;
use crate::signature::bindings_spec;
use crate::signature::return_shape_spec;

verus! {

/// Which log statement the synthesized body carries.
///
/// * `MatchResult`: the return is error-carrying; the body branches on the
///   two variants. The error arm always prints, tagged `ERROR`; the
///   success arm prints at the configured severity iff `log_ok`.
/// * `PrintValue`: the return is plain and the severity is below `Error`;
///   one unconditional print at the configured severity.
/// * `Silent`: the return is plain and the severity is `Error`; no log
///   statement at all.
#[derive(Clone, Copy, PartialEq, Eq, Structural, Debug)]
pub enum LogStrategy {
    MatchResult { log_ok: bool },
    PrintValue,
    Silent,
}

/// The strategy chosen for a return shape at a configured severity.
pub open spec fn strategy_spec(shape: ReturnShape, level: LogLevel) -> LogStrategy {
    match shape {
        ReturnShape::ErrorCarrying => LogStrategy::MatchResult {
            log_ok: level_rank(level) < level_rank(LogLevel::Error),
        },
        ReturnShape::Plain => if level_rank(level) < level_rank(LogLevel::Error) {
            LogStrategy::PrintValue
        } else {
            LogStrategy::Silent
        },
    }
}

/// What a strategy's synthesized log statement prints at call time for a
/// given outcome: the tag of the one printed line, or `None` for silence.
pub open spec fn strategy_emits(strategy: LogStrategy, level: LogLevel, is_err: bool) -> Option<
    Seq<char>,
> {
    match strategy {
        LogStrategy::MatchResult { log_ok } => if is_err {
            Some("ERROR"@)
        } else if log_ok {
            Some(level_name_spec(level))
        } else {
            None
        },
        LogStrategy::PrintValue => Some(level_name_spec(level)),
        LogStrategy::Silent => None,
    }
}

/// The chosen strategy is faithful to the policy table: for every return
/// shape, severity and outcome, the synthesized log statement prints
/// exactly the tag the policy asks for, and stays silent exactly where the
/// policy suppresses the line.
pub proof fn lemma_strategy_faithful(shape: ReturnShape, level: LogLevel, is_err: bool)
    ensures
        strategy_emits(strategy_spec(shape, level), level, is_err) == decision_spec(
            shape,
            is_err,
            level,
        ),
{
}

/// The transformed definition: the original signature, kept whole, with
/// the derived pieces from which the new body is rendered.
#[derive(PartialEq, Eq, Debug)]
pub struct InstrumentedFn {
    pub sig: FnSig,
    pub level: LogLevel,
    pub bindings: Vec<String>,
    pub strategy: LogStrategy,
}

impl InstrumentedFn {
    /// The bindings are those of the signature, in declaration order, and
    /// the strategy is the one the policy picks for the signature's return
    /// shape at the configured severity.
    pub open spec fn wf(self) -> bool {
        &&& self.bindings@.map_values(|s: String| s@) == bindings_spec(self.sig.params@)
        &&& self.strategy == strategy_spec(return_shape_spec(self.sig.ret), self.level)
    }
}

/// The Instrumentor: consumes a function's shape and a severity and
/// produces the transformed definition. The signature is preserved
/// exactly; only the derived body pieces are added.
pub fn instrument(sig: FnSig, level: LogLevel) -> (r: InstrumentedFn)
    ensures
        r.sig == sig,
        r.level == level,
        r.wf(),
{
    let (bindings, _is_suspending, shape) = analyze(&sig);
    let strategy = match shape {
        ReturnShape::ErrorCarrying => LogStrategy::MatchResult {
            log_ok: level.below(LogLevel::Error),
        },
        ReturnShape::Plain => if level.below(LogLevel::Error) {
            LogStrategy::PrintValue
        } else {
            LogStrategy::Silent
        },
    };
    let r = InstrumentedFn { sig, level, bindings, strategy };
    proof {
        assert(r.bindings@.map_values(|s: String| s@) =~= bindings_spec(r.sig.params@));
    }
    r
}

/// The whole transformation: parse the severity token, then instrument.
/// An unrecognized severity aborts the transformation with
/// `InvalidSeverity`; no partial output is produced.
pub fn transform(level_token: &str, sig: FnSig) -> (r: Result<InstrumentedFn, TransformError>)
    ensures
        parse_level_spec(level_token@) matches Some(l) ==> (r matches Ok(g) && g.sig == sig
            && g.level == l && g.wf()),
        parse_level_spec(level_token@) is None ==> (r matches Err(
            TransformError::InvalidSeverity { token: t },
        ) && t@ == level_token@),
{
    match LogLevel::parse(level_token) {
        Ok(level) => Ok(instrument(sig, level)),
        Err(e) => Err(e),
    }
}

} // verus!
