use route_controller::diagnostics::Diagnostic;
use route_controller::diagnostics::DiagnosticCode;
use route_controller::diagnostics::Diagnostics;
use route_controller::parser::config::accept_middleware;
use route_controller::parser::parse_controller_attributes;
use route_controller::parser::ControllerConfig;

fn diag(code: DiagnosticCode, subject: &str, context: &str) -> Diagnostic {
    Diagnostic { code, subject: subject.to_string(), context: context.to_string() }
}

fn parse(attr: &str) -> (ControllerConfig, Vec<Diagnostic>) {
    let mut diagnostics = Diagnostics::new();
    let config = parse_controller_attributes(attr, &mut diagnostics);
    (config, diagnostics.items)
}

fn config(
    prefix: Option<&str>,
    middlewares: &[&str],
    headers: &[(&str, &str)],
    content_type: Option<&str>,
) -> ControllerConfig {
    ControllerConfig {
        route_prefix: prefix.map(|p| p.to_string()),
        middlewares: middlewares.iter().map(|m| m.to_string()).collect(),
        response_headers: headers.iter().map(|(n, v)| (n.to_string(), v.to_string())).collect(),
        content_type: content_type.map(|t| t.to_string()),
    }
}

#[test]
fn empty_annotation_gives_the_empty_configuration() {
    assert_eq!(parse(""), (config(None, &[], &[], None), vec![]));
    assert_eq!(parse("  "), (config(None, &[], &[], None), vec![]));
}

#[test]
fn path_sets_the_prefix_with_a_leading_slash() {
    assert_eq!(parse("path = \"/users\""), (config(Some("/users"), &[], &[], None), vec![]));
    assert_eq!(parse("path = \"api\""), (config(Some("/api"), &[], &[], None), vec![]));
    assert_eq!(parse("path=\"/v1\""), (config(Some("/v1"), &[], &[], None), vec![]));
    assert_eq!(parse("path = /raw"), (config(Some("/raw"), &[], &[], None), vec![]));
}

#[test]
fn the_last_path_decides() {
    assert_eq!(
        parse("path = \"/a\", path = \"/b\""),
        (config(Some("/b"), &[], &[], None), vec![])
    );
}

#[test]
fn empty_path_warns_and_gives_the_root_prefix() {
    assert_eq!(
        parse("path = \"\""),
        (config(Some("/"), &[], &[], None), vec![diag(DiagnosticCode::EmptyPath, "", "")])
    );
    assert_eq!(
        parse("path ="),
        (config(Some("/"), &[], &[], None), vec![diag(DiagnosticCode::EmptyPath, "", "")])
    );
}

#[test]
fn path_in_another_shape_is_fatal() {
    let (found, diagnostics) = parse("path");
    assert_eq!(found, config(None, &[], &[], None));
    assert_eq!(diagnostics, vec![diag(DiagnosticCode::InvalidPathFormat, "", "")]);
    assert!(diagnostics[0].is_error());
    assert_eq!(parse("path(\"/x\")").1, vec![diag(DiagnosticCode::InvalidPathFormat, "", "")]);
}

#[test]
fn middleware_references_keep_their_declaration_order() {
    assert_eq!(
        parse("path = \"/api\", middleware = log_middleware, middleware = auth::check"),
        (config(Some("/api"), &["log_middleware", "auth::check"], &[], None), vec![])
    );
    assert_eq!(
        parse("middleware = crate :: mw :: first"),
        (config(None, &["crate :: mw :: first"], &[], None), vec![])
    );
}

#[test]
fn unparsable_middleware_is_fatal_and_dropped() {
    let (found, diagnostics) = parse("middleware = 1bad, middleware = good, middleware = a b");
    assert_eq!(found, config(None, &["good"], &[], None));
    assert_eq!(
        diagnostics,
        vec![
            diag(DiagnosticCode::InvalidMiddleware, "1bad", ""),
            diag(DiagnosticCode::InvalidMiddleware, "a b", ""),
        ]
    );
    assert!(diagnostics[0].is_error());
    let (_, quoted) = parse("middleware = \"log\"");
    assert_eq!(quoted, vec![diag(DiagnosticCode::InvalidMiddleware, "\"log\"", "")]);
    let (_, unbalanced) = parse("middleware = a::<");
    assert_eq!(unbalanced, vec![diag(DiagnosticCode::InvalidMiddleware, "a::<", "")]);
}

#[test]
fn empty_middleware_is_fatal() {
    let (found, diagnostics) = parse("middleware =");
    assert_eq!(found, config(None, &[], &[], None));
    assert_eq!(diagnostics, vec![diag(DiagnosticCode::EmptyMiddleware, "", "")]);
    assert!(diagnostics[0].is_error());
}

#[test]
fn middleware_in_another_shape_is_fatal() {
    assert_eq!(parse("middleware").1, vec![diag(DiagnosticCode::InvalidMiddlewareFormat, "", "")]);
    assert_eq!(
        parse("middleware(log)").1,
        vec![diag(DiagnosticCode::InvalidMiddlewareFormat, "", "")]
    );
}

#[test]
fn accepting_a_middleware_goes_by_the_given_answer() {
    let mut middlewares = vec!["first".to_string()];
    let mut diagnostics = Diagnostics::new();
    accept_middleware("second".to_string(), true, &mut middlewares, &mut diagnostics);
    assert_eq!(middlewares, vec!["first", "second"]);
    assert_eq!(diagnostics.items, vec![]);
    accept_middleware("third".to_string(), false, &mut middlewares, &mut diagnostics);
    assert_eq!(middlewares, vec!["first", "second"]);
    assert_eq!(diagnostics.items, vec![diag(DiagnosticCode::InvalidMiddleware, "third", "")]);
    accept_middleware(String::new(), true, &mut middlewares, &mut diagnostics);
    assert_eq!(middlewares, vec!["first", "second"]);
    assert_eq!(
        diagnostics.items,
        vec![
            diag(DiagnosticCode::InvalidMiddleware, "third", ""),
            diag(DiagnosticCode::EmptyMiddleware, "", ""),
        ]
    );
}

#[test]
fn controller_headers_and_content_type_are_read() {
    assert_eq!(
        parse("path = \"/api\", header(\"x-a\", \"1\"), header(\"x-b\", \"2\"), content_type(\"application/json\")"),
        (
            config(Some("/api"), &[], &[("x-a", "1"), ("x-b", "2")], Some("application/json")),
            vec![]
        )
    );
}

#[test]
fn a_header_named_path_is_no_prefix() {
    assert_eq!(
        parse("header(\"path\", \"middleware\")"),
        (config(None, &[], &[("path", "middleware")], None), vec![])
    );
}

#[test]
fn unclosed_lists_warn() {
    assert_eq!(
        parse("header(\"a\", \"b\"").1,
        vec![diag(DiagnosticCode::UnclosedHeader, "", "")]
    );
    assert_eq!(
        parse("content_type(\"a\"").1,
        vec![diag(DiagnosticCode::UnclosedContentType, "", "")]
    );
}

#[test]
fn configuration_diagnostics_come_in_the_order_of_the_checks() {
    let (found, diagnostics) =
        parse("content_type(\"\"), header(\"\", \"v\"), middleware = 9, path = \"\"");
    assert_eq!(found, config(Some("/"), &[], &[("", "v")], Some("")));
    assert_eq!(
        diagnostics,
        vec![
            diag(DiagnosticCode::InvalidMiddleware, "9", ""),
            diag(DiagnosticCode::EmptyPath, "", ""),
            diag(DiagnosticCode::EmptyHeader, "", ""),
            diag(DiagnosticCode::EmptyContentType, "", ""),
        ]
    );
}

#[test]
fn unknown_arguments_are_passed_over() {
    assert_eq!(
        parse("name = \"users\", other(1, 2), path = \"/p\""),
        (config(Some("/p"), &[], &[], None), vec![])
    );
}
