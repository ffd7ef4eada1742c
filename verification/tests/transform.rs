//! The transformation itself: severity parsing, signature analysis,
//! strategy selection, and the rendered body text.

use log_attrib::FnSig;
use log_attrib::LogLevel;
use log_attrib::LogStrategy;
use log_attrib::Param;
use log_attrib::ReceiverKind;
use log_attrib::RetType;
use log_attrib::ReturnShape;
use log_attrib::TransformError;
use log_attrib::render::render_body;
use log_attrib::rewrite::instrument;
use log_attrib::rewrite::transform;
use log_attrib::signature::analyze;
use log_attrib::signature::argument_bindings;
use log_attrib::signature::classify_return;
use log_attrib::summary::join_rendered;

fn named(pat: &str) -> Param {
    Param::Named { pat: pat.to_string() }
}

fn path_ret(last_segment: &str) -> RetType {
    RetType::Path { last_segment: last_segment.to_string() }
}

fn sig(name: &str, params: Vec<Param>, is_async: bool, ret: RetType) -> FnSig {
    FnSig { name: name.to_string(), params, is_async, ret }
}

#[test]
fn severity_parses_case_insensitively() {
    assert_eq!(LogLevel::parse("DEBUG"), Ok(LogLevel::Debug));
    assert_eq!(LogLevel::parse("debug"), Ok(LogLevel::Debug));
    assert_eq!(LogLevel::parse("Info"), Ok(LogLevel::Info));
    assert_eq!(LogLevel::parse("INFO"), Ok(LogLevel::Info));
    assert_eq!(LogLevel::parse("eRrOr"), Ok(LogLevel::Error));
}

#[test]
fn severity_rejects_unknown_tokens() {
    for bad in ["WARN", "TRACE", "", "INF", "INFOS", "DEBUG "] {
        assert_eq!(
            LogLevel::parse(bad),
            Err(TransformError::InvalidSeverity { token: bad.to_string() })
        );
    }
}

#[test]
fn severity_names_and_order() {
    assert_eq!(LogLevel::Debug.name(), "DEBUG");
    assert_eq!(LogLevel::Info.name(), "INFO");
    assert_eq!(LogLevel::Error.name(), "ERROR");
    assert!(LogLevel::Debug.below(LogLevel::Info));
    assert!(LogLevel::Debug.below(LogLevel::Error));
    assert!(LogLevel::Info.below(LogLevel::Error));
    assert!(!LogLevel::Error.below(LogLevel::Error));
    assert!(!LogLevel::Error.below(LogLevel::Info));
    assert!(!LogLevel::Info.below(LogLevel::Info));
}

#[test]
fn return_shape_is_a_name_heuristic() {
    assert_eq!(classify_return(&path_ret("Result")), ReturnShape::ErrorCarrying);
    assert_eq!(classify_return(&path_ret("Option")), ReturnShape::Plain);
    assert_eq!(classify_return(&path_ret("i32")), ReturnShape::Plain);
    assert_eq!(classify_return(&RetType::Unit), ReturnShape::Plain);
    assert_eq!(classify_return(&RetType::Other), ReturnShape::Plain);
    // The judgment goes by the written name alone: any type whose last path
    // segment reads `Result` is taken as error-carrying.
    assert_eq!(classify_return(&path_ret("result")), ReturnShape::Plain);
}

#[test]
fn bindings_keep_declaration_order() {
    let params = vec![
        Param::Receiver { kind: ReceiverKind::ByRefMut },
        named("s"),
        named("count"),
    ];
    let bindings = argument_bindings(&params);
    let got: Vec<&str> = bindings.iter().map(|s| s.as_str()).collect();
    assert_eq!(got, vec!["&self", "s", "count"]);
    assert!(argument_bindings(&Vec::new()).is_empty());
}

#[test]
fn analyzer_reads_the_whole_shape() {
    let s = sig("square", vec![named("a")], true, path_ret("u32"));
    let (bindings, is_suspending, shape) = analyze(&s);
    let got: Vec<&str> = bindings.iter().map(|b| b.as_str()).collect();
    assert_eq!(got, vec!["a"]);
    assert!(is_suspending);
    assert_eq!(shape, ReturnShape::Plain);
}

#[test]
fn summary_joins_with_comma_space() {
    let empty: Vec<String> = Vec::new();
    assert_eq!(join_rendered(&empty), "");
    assert_eq!(join_rendered(&vec!["2".to_string()]), "2");
    assert_eq!(join_rendered(&vec!["2".to_string(), "2".to_string()]), "2, 2");
    assert_eq!(
        join_rendered(&vec!["A(10)".to_string(), "5".to_string(), "\"hi\"".to_string()]),
        "A(10), 5, \"hi\""
    );
}

#[test]
fn strategies_follow_the_policy_table() {
    let g = instrument(sig("add", vec![named("a"), named("b")], false, path_ret("i32")), LogLevel::Info);
    assert_eq!(g.strategy, LogStrategy::PrintValue);
    let g = instrument(sig("add", vec![named("a"), named("b")], false, path_ret("i32")), LogLevel::Error);
    assert_eq!(g.strategy, LogStrategy::Silent);
    let g = instrument(sig("sqrt_err", vec![named("a")], false, path_ret("Result")), LogLevel::Info);
    assert_eq!(g.strategy, LogStrategy::MatchResult { log_ok: true });
    let g = instrument(sig("sqrt_err", vec![named("a")], false, path_ret("Result")), LogLevel::Error);
    assert_eq!(g.strategy, LogStrategy::MatchResult { log_ok: false });
}

#[test]
fn instrument_preserves_the_signature() {
    let g = instrument(sig("square", vec![named("a")], true, path_ret("u32")), LogLevel::Info);
    assert_eq!(g.sig, sig("square", vec![named("a")], true, path_ret("u32")));
    assert_eq!(g.level, LogLevel::Info);
    let got: Vec<&str> = g.bindings.iter().map(|b| b.as_str()).collect();
    assert_eq!(got, vec!["a"]);
}

#[test]
fn transform_rejects_an_invalid_severity() {
    let r = transform("verbose", sig("add", vec![named("a")], false, RetType::Unit));
    assert_eq!(
        r,
        Err(TransformError::InvalidSeverity { token: "verbose".to_string() })
    );
    let r = transform("info", sig("add", vec![named("a")], false, RetType::Unit));
    assert!(r.is_ok());
    assert_eq!(r.unwrap().level, LogLevel::Info);
}

#[test]
fn rendered_plain_body_text() {
    let g = instrument(sig("add", vec![named("a"), named("b")], false, path_ret("i32")), LogLevel::Info);
    let body = render_body(&g, "{ a + b }");
    assert_eq!(
        body,
        r#"{ let args = [format!("{:?}", a).to_string(), format!("{:?}", b).to_string(), ].iter().cloned().reduce(|acc, arg| format!("{acc}, {arg}")).unwrap_or(String::new()); let result = (|| { a + b })(); println!("[{}] {}({args}) = {result:?}", "INFO", "add"); result }"#
    );
}

#[test]
fn rendered_silent_body_text() {
    let g = instrument(sig("return_back", vec![named("a")], false, path_ret("u32")), LogLevel::Error);
    let body = render_body(&g, "{ a }");
    assert_eq!(
        body,
        r#"{ let args = [format!("{:?}", a).to_string(), ].iter().cloned().reduce(|acc, arg| format!("{acc}, {arg}")).unwrap_or(String::new()); let result = (|| { a })(); result }"#
    );
}

#[test]
fn rendered_result_body_text() {
    let g = instrument(sig("sqrt_err", vec![named("a")], false, path_ret("Result")), LogLevel::Error);
    let body = render_body(&g, "{ isqrt(a) }");
    assert_eq!(
        body,
        r#"{ let args = [format!("{:?}", a).to_string(), ].iter().cloned().reduce(|acc, arg| format!("{acc}, {arg}")).unwrap_or(String::new()); let result = (|| { isqrt(a) })(); match result { ::core::result::Result::Err(_) => println!("[ERROR] {}({args}) = {result:?}", "sqrt_err"), _ => {}, }; result }"#
    );
}

#[test]
fn rendered_async_body_awaits() {
    let g = instrument(sig("square", vec![named("a")], true, path_ret("u32")), LogLevel::Info);
    let body = render_body(&g, "{ a * a }");
    assert!(body.contains("let result = (async || { a * a })().await;"));
    let g = instrument(sig("square", vec![named("a")], false, path_ret("u32")), LogLevel::Info);
    let body = render_body(&g, "{ a * a }");
    assert!(body.contains("let result = (|| { a * a })();"));
}

#[test]
fn rendered_bodies_parse_as_blocks() {
    let cases = vec![
        (sig("add", vec![named("a"), named("b")], false, path_ret("i32")), LogLevel::Info, "{ a + b }"),
        (sig("foo", Vec::new(), false, RetType::Unit), LogLevel::Debug, "{ }"),
        (
            sig(
                "foo",
                vec![Param::Receiver { kind: ReceiverKind::ByRef }, named("a")],
                false,
                path_ret("u8"),
            ),
            LogLevel::Info,
            "{ self.0 + a }",
        ),
        (sig("sqrt_ok", vec![named("a")], false, path_ret("Result")), LogLevel::Info, "{ isqrt(a) }"),
        (sig("sqrt_err", vec![named("a")], false, path_ret("Result")), LogLevel::Error, "{ isqrt(a) }"),
        (sig("square", vec![named("a")], true, path_ret("u32")), LogLevel::Info, "{ a * a }"),
        (sig("return_back", vec![named("a")], false, path_ret("u32")), LogLevel::Error, "{ a }"),
    ];
    for (s, level, body_src) in cases {
        let g = instrument(s, level);
        let body = render_body(&g, body_src);
        let parsed: Result<syn::Block, syn::Error> = syn::parse_str(&body);
        assert!(parsed.is_ok(), "body does not parse: {}", body);
    }
}
