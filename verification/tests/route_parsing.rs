use route_controller::diagnostics::Diagnostic;
use route_controller::diagnostics::DiagnosticCode;
use route_controller::diagnostics::Diagnostics;
use route_controller::parser::extract_route_from_attrs;
use route_controller::parser::route::path_parameters;
use route_controller::parser::validate_path_parameters;
use route_controller::parser::Capabilities;
use route_controller::parser::ExtractorMap;
use route_controller::parser::ExtractorType;
use route_controller::parser::HttpMethod;
use route_controller::parser::RouteInfo;

fn diag(code: DiagnosticCode, subject: &str, context: &str) -> Diagnostic {
    Diagnostic { code, subject: subject.to_string(), context: context.to_string() }
}

fn map_of(entries: &[(&str, ExtractorType)]) -> ExtractorMap {
    let mut map = ExtractorMap::new();
    for (name, kind) in entries {
        map.insert(name.to_string(), *kind);
    }
    map
}

fn read(attrs: &[&str]) -> (Option<RouteInfo>, Vec<Diagnostic>) {
    read_with(attrs, Capabilities::all())
}

fn read_with(attrs: &[&str], caps: Capabilities) -> (Option<RouteInfo>, Vec<Diagnostic>) {
    let texts: Vec<String> = attrs.iter().map(|a| a.to_string()).collect();
    let mut diagnostics = Diagnostics::new();
    let route = extract_route_from_attrs(&texts, &caps, &mut diagnostics);
    (route, diagnostics.items)
}

fn route(
    method: HttpMethod,
    path: &str,
    extractors: &[(&str, ExtractorType)],
    headers: &[(&str, &str)],
    content_type: Option<&str>,
) -> RouteInfo {
    RouteInfo {
        method,
        path: path.to_string(),
        extractors: map_of(extractors),
        response_headers: headers.iter().map(|(n, v)| (n.to_string(), v.to_string())).collect(),
        content_type: content_type.map(|t| t.to_string()),
    }
}

fn path_check(path: &str, entries: &[(&str, ExtractorType)]) -> Vec<Diagnostic> {
    let mut diagnostics = Diagnostics::new();
    validate_path_parameters(path, &map_of(entries), &mut diagnostics);
    diagnostics.items
}

#[test]
fn bare_method_keyword_is_a_route_on_the_root_path() {
    assert_eq!(read(&["get"]), (Some(route(HttpMethod::Get, "/", &[], &[], None)), vec![]));
    assert_eq!(read(&["post()"]), (Some(route(HttpMethod::Post, "/", &[], &[], None)), vec![]));
    assert_eq!(read(&["put ( )"]), (Some(route(HttpMethod::Put, "/", &[], &[], None)), vec![]));
}

#[test]
fn every_method_keyword_is_recognised() {
    let methods = [
        ("get", HttpMethod::Get),
        ("head", HttpMethod::Head),
        ("delete", HttpMethod::Delete),
        ("options", HttpMethod::Options),
        ("patch", HttpMethod::Patch),
        ("post", HttpMethod::Post),
        ("put", HttpMethod::Put),
        ("trace", HttpMethod::Trace),
        ("connect", HttpMethod::Connect),
    ];
    for (keyword, method) in methods {
        let text = format!("{}(\"/x\")", keyword);
        assert_eq!(read(&[&text]), (Some(route(method, "/x", &[], &[], None)), vec![]));
    }
    assert_eq!(read(&["GET(\"/x\")"]), (Some(route(HttpMethod::Get, "/x", &[], &[], None)), vec![]));
}

#[test]
fn path_literal_is_normalised_to_a_leading_slash() {
    assert_eq!(read(&["get(\"/users\")"]).0.unwrap().path, "/users");
    assert_eq!(read(&["get(\"users\")"]).0.unwrap().path, "/users");
    assert_eq!(read(&["get(\"\")"]).0.unwrap().path, "/");
    assert_eq!(read(&["get(\"/\")"]).0.unwrap().path, "/");
    assert_eq!(read(&["get(\"/a,b\")"]).0.unwrap().path, "/a,b");
    assert_eq!(read(&["get (\"/spaced\" )"]).0.unwrap().path, "/spaced");
}

#[test]
fn a_header_literal_is_not_mistaken_for_the_path() {
    let (found, diagnostics) = read(&["get(header(\"x-a\", \"1\"))"]);
    assert_eq!(found, Some(route(HttpMethod::Get, "/", &[], &[("x-a", "1")], None)));
    assert_eq!(diagnostics, vec![]);
}

#[test]
fn nested_path_scenario_gives_the_route_descriptor() {
    let (found, diagnostics) =
        read(&["get(\"/users/{id}/posts/{post_id}\", extract(id = Path, post_id = Path))"]);
    assert_eq!(
        found,
        Some(route(
            HttpMethod::Get,
            "/users/{id}/posts/{post_id}",
            &[("id", ExtractorType::Path), ("post_id", ExtractorType::Path)],
            &[],
            None
        ))
    );
    assert_eq!(diagnostics, vec![]);
}

#[test]
fn token_stream_spacing_is_accepted() {
    let (found, diagnostics) = read(&[
        "get (\"/{id}/search\" , extract (id = Path , filters = Query) , header (\"x-v\" , \"2\") , content_type (\"text/plain\"))",
    ]);
    assert_eq!(
        found,
        Some(route(
            HttpMethod::Get,
            "/{id}/search",
            &[("id", ExtractorType::Path), ("filters", ExtractorType::Query)],
            &[("x-v", "2")],
            Some("text/plain")
        ))
    );
    assert_eq!(diagnostics, vec![]);
}

#[test]
fn unknown_extractor_kind_is_fatal_and_leaves_the_name_unmanaged() {
    let (found, diagnostics) = read(&["post(\"/x\", extract(data = Jsn))"]);
    assert_eq!(
        found,
        Some(route(HttpMethod::Post, "/x", &[("data", ExtractorType::Plain)], &[], None))
    );
    assert_eq!(diagnostics, vec![diag(DiagnosticCode::UnknownExtractor, "Jsn", "")]);
    assert!(diagnostics[0].is_error());
}

#[test]
fn extract_entry_without_kind_is_fatal() {
    let (found, diagnostics) = read(&["post(\"/x\", extract(data))"]);
    assert_eq!(found, Some(route(HttpMethod::Post, "/x", &[], &[], None)));
    assert_eq!(diagnostics, vec![diag(DiagnosticCode::InvalidExtractorSyntax, "data", "")]);
    assert!(diagnostics[0].is_error());
}

#[test]
fn extract_entries_of_other_shapes_are_passed_over() {
    let (found, diagnostics) = read(&["post(\"/x\", extract(a = b = c, , d = Query))"]);
    assert_eq!(
        found,
        Some(route(HttpMethod::Post, "/x", &[("d", ExtractorType::Query)], &[], None))
    );
    assert_eq!(diagnostics, vec![]);
}

#[test]
fn only_the_first_extract_list_counts() {
    let (found, diagnostics) =
        read(&["post(\"/x\", extract(a = Query), extract(b = Query, c = Nope))"]);
    assert_eq!(
        found,
        Some(route(HttpMethod::Post, "/x", &[("a", ExtractorType::Query)], &[], None))
    );
    assert_eq!(diagnostics, vec![]);
}

#[test]
fn a_name_bound_twice_keeps_the_last_kind() {
    let (found, _) = read(&["post(\"/x\", extract(a = Query, b = Json, a = State))"]);
    assert_eq!(
        found.unwrap().extractors.entries,
        vec![("a".to_string(), ExtractorType::State), ("b".to_string(), ExtractorType::Json)]
    );
}

#[test]
fn headers_are_read_in_both_forms_and_in_order() {
    let (found, diagnostics) = read(&[
        "get(\"/info\", header(\"x-api-version\", \"2.0\"), header(\"x-request-id\", \"abc-123\"), header(x_flag = \"on\"))",
    ]);
    assert_eq!(
        found.unwrap().response_headers,
        vec![
            ("x-api-version".to_string(), "2.0".to_string()),
            ("x-request-id".to_string(), "abc-123".to_string()),
            ("x_flag".to_string(), "on".to_string()),
        ]
    );
    assert_eq!(diagnostics, vec![]);
}

#[test]
fn header_values_may_hold_commas_and_equals_signs() {
    let (found, diagnostics) =
        read(&["get(\"/x\", header(\"cache-control\", \"no-cache, max-age=0\"))"]);
    assert_eq!(
        found.unwrap().response_headers,
        vec![("cache-control".to_string(), "no-cache, max-age=0".to_string())]
    );
    assert_eq!(diagnostics, vec![]);
}

#[test]
fn empty_header_parts_warn_and_are_kept() {
    let (found, diagnostics) = read(&["get(\"/x\", header(\"\", \"v\"), header(\"n\", \"\"))"]);
    assert_eq!(
        found.unwrap().response_headers,
        vec![(String::new(), "v".to_string()), ("n".to_string(), String::new())]
    );
    assert_eq!(
        diagnostics,
        vec![diag(DiagnosticCode::EmptyHeader, "", ""), diag(DiagnosticCode::EmptyHeader, "", "")]
    );
    assert!(!diagnostics[0].is_error());
}

#[test]
fn malformed_header_lists_warn_and_are_dropped() {
    let (found, diagnostics) =
        read(&["get(\"/x\", header(\"only\"), header(\"a\", \"b\", \"c\"), header())"]);
    assert_eq!(found.unwrap().response_headers, vec![]);
    assert_eq!(
        diagnostics,
        vec![
            diag(DiagnosticCode::InvalidHeaderFormat, "", ""),
            diag(DiagnosticCode::InvalidHeaderFormat, "", ""),
            diag(DiagnosticCode::InvalidHeaderFormat, "", ""),
        ]
    );
}

#[test]
fn content_type_is_read_from_the_first_declaration() {
    let (found, diagnostics) =
        read(&["get(\"/xml\", content_type(\"application/xml\"), content_type(\"text/plain\"))"]);
    assert_eq!(found.unwrap().content_type, Some("application/xml".to_string()));
    assert_eq!(diagnostics, vec![]);
}

#[test]
fn empty_content_type_warns_and_is_kept() {
    let (found, diagnostics) = read(&["get(\"/x\", content_type(\"\"))"]);
    assert_eq!(found.unwrap().content_type, Some(String::new()));
    assert_eq!(diagnostics, vec![diag(DiagnosticCode::EmptyContentType, "", "")]);
}

#[test]
fn annotations_before_the_route_are_checked_for_their_keyword() {
    let (found, diagnostics) = read(&["inline", "tracing::instrument(skip(x))", "get(\"/x\")"]);
    assert_eq!(found, Some(route(HttpMethod::Get, "/x", &[], &[], None)));
    assert_eq!(diagnostics, vec![diag(DiagnosticCode::UnknownHttpMethod, "inline", "")]);
    assert!(diagnostics[0].is_error());
}

#[test]
fn the_first_method_annotation_decides() {
    let (found, diagnostics) = read(&["post(\"/first\")", "get(\"/second\")", "inline"]);
    assert_eq!(found, Some(route(HttpMethod::Post, "/first", &[], &[], None)));
    assert_eq!(diagnostics, vec![]);
}

#[test]
fn handlers_without_annotations_are_no_routes() {
    assert_eq!(read(&[]), (None, vec![]));
    assert_eq!(read(&["a::b", "\"text\"", ""]), (None, vec![]));
}

#[test]
fn unknown_keywords_alone_give_no_route_and_one_error_each() {
    let (found, diagnostics) = read(&["fetch(\"/x\")", "doc = \"text\""]);
    assert_eq!(found, None);
    assert_eq!(
        diagnostics,
        vec![
            diag(DiagnosticCode::UnknownHttpMethod, "fetch", ""),
            diag(DiagnosticCode::UnknownHttpMethod, "doc", ""),
        ]
    );
}

#[test]
fn diagnostics_come_in_the_order_of_the_checks() {
    let (found, diagnostics) = read_with(
        &["get(\"/u/{id}\", extract(data = Json, auth = HeaderParam, x = Zzz), header(\"a\"), content_type(\"\"))"],
        Capabilities::none(),
    );
    assert_eq!(found.unwrap().path, "/u/{id}");
    assert_eq!(
        diagnostics,
        vec![
            diag(DiagnosticCode::UnknownExtractor, "Zzz", ""),
            diag(DiagnosticCode::InvalidHeaderFormat, "", ""),
            diag(DiagnosticCode::EmptyContentType, "", ""),
            diag(DiagnosticCode::BodyOnBodilessMethod, "data", "GET"),
            diag(DiagnosticCode::CapabilityDisabled, "auth", "headers"),
            diag(DiagnosticCode::PathParameterWithoutExtractor, "id", "/u/{id}"),
        ]
    );
}

#[test]
fn multiple_body_extractors_on_a_route_are_fatal() {
    let (found, diagnostics) = read(&["post(\"/x\", extract(a = Json, b = Form))"]);
    assert!(found.is_some());
    assert_eq!(
        diagnostics,
        vec![diag(DiagnosticCode::MultipleBodyExtractors, "a (Json), b (Form)", "")]
    );
    let (_, swapped) = read(&["post(\"/x\", extract(b = Form, a = Json))"]);
    assert_eq!(
        swapped,
        vec![diag(DiagnosticCode::MultipleBodyExtractors, "b (Form), a (Json)", "")]
    );
}

#[test]
fn placeholders_are_the_braced_segments() {
    assert_eq!(path_parameters("/users/{id}/posts/{post_id}"), vec!["id", "post_id"]);
    assert_eq!(path_parameters("/"), Vec::<String>::new());
    assert_eq!(path_parameters(""), Vec::<String>::new());
    assert_eq!(path_parameters("/{a}/{b}/{a}"), vec!["a", "b"]);
    assert_eq!(path_parameters("/{}"), vec![""]);
    assert_eq!(path_parameters("/x{id}/{id}y/{/}"), Vec::<String>::new());
    assert_eq!(path_parameters("/:id"), Vec::<String>::new());
    assert_eq!(path_parameters("{id}"), vec!["id"]);
}

#[test]
fn exact_path_entries_validate_clean() {
    assert_eq!(
        path_check(
            "/users/{id}/posts/{post_id}",
            &[("post_id", ExtractorType::Path), ("id", ExtractorType::Path)]
        ),
        vec![]
    );
    assert_eq!(
        path_check("/users/{id}", &[("id", ExtractorType::Path), ("q", ExtractorType::Query)]),
        vec![]
    );
    assert_eq!(path_check("/users", &[]), vec![]);
}

#[test]
fn missing_path_entry_is_fatal_and_names_the_parameter() {
    let found = path_check("/users/{id}/posts/{post_id}", &[("id", ExtractorType::Path)]);
    assert_eq!(
        found,
        vec![diag(
            DiagnosticCode::PathParameterWithoutExtractor,
            "post_id",
            "/users/{id}/posts/{post_id}"
        )]
    );
    assert!(found[0].is_error());
}

#[test]
fn mis_kinded_path_entry_is_fatal_and_names_the_parameter() {
    let found = path_check("/users/{id}", &[("id", ExtractorType::Query)]);
    assert_eq!(found, vec![diag(DiagnosticCode::PathParameterWrongKind, "id", "/users/{id}")]);
    assert!(found[0].is_error());
}

#[test]
fn extra_path_entry_is_a_warning() {
    let found =
        path_check("/users/{id}", &[("id", ExtractorType::Path), ("other", ExtractorType::Path)]);
    assert_eq!(found, vec![diag(DiagnosticCode::UnusedPathExtractor, "other", "/users/{id}")]);
    assert!(!found[0].is_error());
}

#[test]
fn errors_come_before_warnings_in_path_validation() {
    let found = path_check(
        "/{a}/{b}",
        &[("z", ExtractorType::Path), ("b", ExtractorType::Json), ("y", ExtractorType::Path)],
    );
    assert_eq!(
        found,
        vec![
            diag(DiagnosticCode::PathParameterWithoutExtractor, "a", "/{a}/{b}"),
            diag(DiagnosticCode::PathParameterWrongKind, "b", "/{a}/{b}"),
            diag(DiagnosticCode::UnusedPathExtractor, "z", "/{a}/{b}"),
            diag(DiagnosticCode::UnusedPathExtractor, "y", "/{a}/{b}"),
        ]
    );
}
