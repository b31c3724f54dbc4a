use route_controller::diagnostics::Diagnostic;
use route_controller::diagnostics::DiagnosticCode;
use route_controller::diagnostics::Diagnostics;
use route_controller::diagnostics::Severity;
use route_controller::parser::analyze_params;
use route_controller::parser::ExtractorMap;
use route_controller::parser::ExtractorType;
use route_controller::parser::ParamDecl;
use route_controller::parser::ParamInfo;

fn diag(code: DiagnosticCode, subject: &str, context: &str) -> Diagnostic {
    Diagnostic { code, subject: subject.to_string(), context: context.to_string() }
}

fn map_of(entries: &[(&str, ExtractorType)]) -> ExtractorMap {
    let mut map = ExtractorMap::new();
    for (name, kind) in entries {
        map.insert(name.to_string(), *kind);
    }
    map
}

fn decl(pattern: &str, ty: &str) -> ParamDecl {
    ParamDecl { pattern: pattern.to_string(), ty: ty.to_string(), is_ident: true }
}

fn complex(pattern: &str, ty: &str) -> ParamDecl {
    ParamDecl { pattern: pattern.to_string(), ty: ty.to_string(), is_ident: false }
}

fn info(pattern: &str, ty: &str, kind: ExtractorType) -> ParamInfo {
    ParamInfo {
        pattern: pattern.to_string(),
        ty: ty.to_string(),
        is_ident: true,
        extractor_type: kind,
    }
}

fn analyze(
    params: &[ParamDecl],
    entries: &[(&str, ExtractorType)],
) -> (Vec<ParamInfo>, Vec<Diagnostic>) {
    let mut diagnostics = Diagnostics::new();
    let resolved = analyze_params(&params.to_vec(), &map_of(entries), &mut diagnostics);
    (resolved, diagnostics.items)
}

#[test]
fn parameters_resolve_by_name_in_declared_order() {
    let (resolved, diagnostics) = analyze(
        &[decl("id", "u32"), decl("filters", "SearchFilters"), decl("user", "User")],
        &[
            ("user", ExtractorType::Json),
            ("id", ExtractorType::Path),
            ("filters", ExtractorType::Query),
        ],
    );
    assert_eq!(
        resolved,
        vec![
            info("id", "u32", ExtractorType::Path),
            info("filters", "SearchFilters", ExtractorType::Query),
            info("user", "User", ExtractorType::Json),
        ]
    );
    assert_eq!(diagnostics, vec![]);
}

#[test]
fn entry_order_does_not_change_the_resolved_kinds() {
    let params = [decl("a", "A"), decl("b", "B"), decl("c", "C")];
    let one = analyze(
        &params,
        &[("a", ExtractorType::Path), ("b", ExtractorType::State), ("c", ExtractorType::Json)],
    );
    let other = analyze(
        &params,
        &[("c", ExtractorType::Json), ("a", ExtractorType::Path), ("b", ExtractorType::State)],
    );
    assert_eq!(one.0, other.0);
    assert_eq!(one.1, vec![]);
    assert_eq!(other.1, vec![]);
}

#[test]
fn parameter_without_entry_is_plain_and_warned_about() {
    let (resolved, diagnostics) = analyze(&[decl("id", "u32"), decl("extra", "String")], &[(
        "id",
        ExtractorType::Path,
    )]);
    assert_eq!(
        resolved,
        vec![info("id", "u32", ExtractorType::Path), info("extra", "String", ExtractorType::Plain)]
    );
    assert_eq!(diagnostics, vec![diag(DiagnosticCode::ParameterWithoutExtractor, "extra", "")]);
    assert_eq!(diagnostics[0].severity(), Severity::Warning);
}

#[test]
fn entry_without_parameter_gives_exactly_one_warning() {
    let (resolved, diagnostics) = analyze(&[], &[("x", ExtractorType::Query)]);
    assert_eq!(resolved, vec![]);
    assert_eq!(diagnostics, vec![diag(DiagnosticCode::ExtractorWithoutParameter, "x", "Query")]);
    assert_eq!(diagnostics[0].severity(), Severity::Warning);
    assert!(!diagnostics[0].is_error());
}

#[test]
fn entry_without_parameter_does_not_disturb_the_others() {
    let (resolved, diagnostics) = analyze(&[decl("id", "u32")], &[
        ("x", ExtractorType::Query),
        ("id", ExtractorType::Path),
        ("y", ExtractorType::Json),
    ]);
    assert_eq!(resolved, vec![info("id", "u32", ExtractorType::Path)]);
    assert_eq!(
        diagnostics,
        vec![
            diag(DiagnosticCode::ExtractorWithoutParameter, "x", "Query"),
            diag(DiagnosticCode::ExtractorWithoutParameter, "y", "Json"),
        ]
    );
}

#[test]
fn complex_patterns_are_plain_and_warned_about() {
    let (resolved, diagnostics) =
        analyze(&[complex("(a, b)", "(u32, u32)")], &[("a", ExtractorType::Path)]);
    assert_eq!(
        resolved,
        vec![ParamInfo {
            pattern: "(a, b)".to_string(),
            ty: "(u32, u32)".to_string(),
            is_ident: false,
            extractor_type: ExtractorType::Plain,
        }]
    );
    assert_eq!(
        diagnostics,
        vec![
            diag(DiagnosticCode::ComplexPattern, "(a, b)", ""),
            diag(DiagnosticCode::ExtractorWithoutParameter, "a", "Path"),
        ]
    );
}

#[test]
fn a_complex_pattern_is_not_matched_by_its_text() {
    let (resolved, _) = analyze(&[complex("id", "u32")], &[("id", ExtractorType::Path)]);
    assert_eq!(resolved[0].extractor_type, ExtractorType::Plain);
}

#[test]
fn duplicate_parameter_names_warn() {
    let (resolved, diagnostics) =
        analyze(&[decl("id", "u32"), decl("id", "u64")], &[("id", ExtractorType::Path)]);
    assert_eq!(
        resolved,
        vec![info("id", "u32", ExtractorType::Path), info("id", "u64", ExtractorType::Path)]
    );
    assert_eq!(diagnostics, vec![diag(DiagnosticCode::DuplicateParameter, "id", "")]);
}

#[test]
fn parameter_warnings_come_before_entry_warnings() {
    let (_, diagnostics) = analyze(
        &[decl("a", "A"), complex("_", "B"), decl("a", "C")],
        &[("z", ExtractorType::State)],
    );
    assert_eq!(
        diagnostics,
        vec![
            diag(DiagnosticCode::ParameterWithoutExtractor, "a", ""),
            diag(DiagnosticCode::ComplexPattern, "_", ""),
            diag(DiagnosticCode::ParameterWithoutExtractor, "a", ""),
            diag(DiagnosticCode::DuplicateParameter, "a", ""),
            diag(DiagnosticCode::ExtractorWithoutParameter, "z", "State"),
        ]
    );
}
