use route_controller::generator::generate_wrapper_functions;
use route_controller::generator::wrappers::adapter_needed;
use route_controller::generator::wrappers::has_kind;
use route_controller::generator::wrappers::header_name_for;
use route_controller::generator::wrappers::needs_wrapper;
use route_controller::generator::wrappers::plan_adapter;
use route_controller::generator::wrappers::plan_arguments;
use route_controller::generator::wrappers::plan_bindings;
use route_controller::generator::wrappers::rank_of;
use route_controller::generator::AdapterPlan;
use route_controller::generator::Binding;
use route_controller::generator::CallArgument;
use route_controller::parser::ControllerConfig;
use route_controller::parser::ExtractorMap;
use route_controller::parser::ExtractorType;
use route_controller::parser::HttpMethod;
use route_controller::parser::ParamInfo;
use route_controller::parser::RouteInfo;
use route_controller::RouteEntry;

fn info(pattern: &str, ty: &str, kind: ExtractorType) -> ParamInfo {
    ParamInfo {
        pattern: pattern.to_string(),
        ty: ty.to_string(),
        is_ident: true,
        extractor_type: kind,
    }
}

fn own(kind: ExtractorType, name: &str, ty: &str) -> Binding {
    Binding::Param { kind, name: name.to_string(), ty: ty.to_string() }
}

fn path(pairs: &[(&str, &str)]) -> Binding {
    Binding::Path { params: pairs.iter().map(|(n, t)| (n.to_string(), t.to_string())).collect() }
}

fn value(name: &str) -> CallArgument {
    CallArgument::Value(name.to_string())
}

fn no_config() -> ControllerConfig {
    ControllerConfig {
        route_prefix: None,
        middlewares: vec![],
        response_headers: vec![],
        content_type: None,
    }
}

fn entry(handler: &str, params: Vec<ParamInfo>) -> RouteEntry {
    let mut extractors = ExtractorMap::new();
    for p in &params {
        if p.extractor_type != ExtractorType::Plain {
            extractors.insert(p.pattern.clone(), p.extractor_type);
        }
    }
    RouteEntry {
        handler: handler.to_string(),
        is_async: true,
        return_type: "-> String".to_string(),
        route: RouteInfo {
            method: HttpMethod::Get,
            path: "/".to_string(),
            extractors,
            response_headers: vec![],
            content_type: None,
        },
        params,
    }
}

fn pairs(items: &[(&str, &str)]) -> Vec<(String, String)> {
    items.iter().map(|(n, v)| (n.to_string(), v.to_string())).collect()
}

#[test]
fn two_path_parameters_are_bound_first_as_one_tuple() {
    let params = vec![
        info("id", "u32", ExtractorType::Path),
        info("post_id", "u64", ExtractorType::Path),
    ];
    let bindings = plan_bindings(&params);
    assert_eq!(bindings, vec![path(&[("id", "u32"), ("post_id", "u64")])]);
    assert_eq!(plan_arguments(&params), vec![value("id"), value("post_id")]);
}

#[test]
fn one_path_parameter_is_bound_by_itself() {
    let params = vec![info("id", "u32", ExtractorType::Path)];
    assert_eq!(plan_bindings(&params), vec![path(&[("id", "u32")])]);
}

#[test]
fn bindings_follow_precedence_whatever_the_declared_order() {
    let params = vec![
        info("note", "String", ExtractorType::Plain),
        info("user", "User", ExtractorType::Json),
        info("filters", "Filters", ExtractorType::Query),
        info("user_id", "String", ExtractorType::SessionParam),
        info("sid", "String", ExtractorType::CookieParam),
        info("authorization", "String", ExtractorType::HeaderParam),
        info("state", "AppState", ExtractorType::State),
        info("id", "u32", ExtractorType::Path),
    ];
    assert_eq!(
        plan_bindings(&params),
        vec![
            path(&[("id", "u32")]),
            Binding::State { ty: "AppState".to_string() },
            Binding::Headers,
            Binding::Cookies,
            Binding::Session,
            own(ExtractorType::Query, "filters", "Filters"),
            own(ExtractorType::Json, "user", "User"),
            own(ExtractorType::Plain, "note", "String"),
        ]
    );
}

#[test]
fn arguments_keep_the_declared_order() {
    let params = vec![
        info("note", "String", ExtractorType::Plain),
        info("user", "User", ExtractorType::Json),
        info("raw", "Vec<u8>", ExtractorType::Bytes),
        info("user_agent", "String", ExtractorType::HeaderParam),
        info("sid", "String", ExtractorType::CookieParam),
        info("user_id", "u64", ExtractorType::SessionParam),
        info("state", "AppState", ExtractorType::State),
        info("id", "u32", ExtractorType::Path),
        info("q", "Q", ExtractorType::Query),
        info("text", "String", ExtractorType::Text),
    ];
    assert_eq!(
        plan_arguments(&params),
        vec![
            value("note"),
            value("user"),
            CallArgument::BytesToVec("raw".to_string()),
            CallArgument::Header("user-agent".to_string()),
            CallArgument::Cookie("sid".to_string()),
            CallArgument::Session { name: "user_id".to_string(), ty: "u64".to_string() },
            CallArgument::State,
            value("id"),
            value("q"),
            value("text"),
        ]
    );
}

#[test]
fn context_sources_are_bound_once_for_many_parameters() {
    let params = vec![
        info("accept", "String", ExtractorType::HeaderParam),
        info("user_agent", "String", ExtractorType::HeaderParam),
        info("a", "String", ExtractorType::CookieParam),
        info("b", "String", ExtractorType::CookieParam),
    ];
    assert_eq!(plan_bindings(&params), vec![Binding::Headers, Binding::Cookies]);
    assert_eq!(
        plan_arguments(&params),
        vec![
            CallArgument::Header("accept".to_string()),
            CallArgument::Header("user-agent".to_string()),
            CallArgument::Cookie("a".to_string()),
            CallArgument::Cookie("b".to_string()),
        ]
    );
}

#[test]
fn the_first_state_parameter_gives_the_state_type() {
    let params = vec![
        info("a", "First", ExtractorType::State),
        info("b", "Second", ExtractorType::State),
    ];
    assert_eq!(plan_bindings(&params), vec![Binding::State { ty: "First".to_string() }]);
    assert_eq!(plan_arguments(&params), vec![CallArgument::State, CallArgument::State]);
}

#[test]
fn every_body_kind_is_bound_after_the_query() {
    for kind in [
        ExtractorType::Json,
        ExtractorType::Form,
        ExtractorType::Bytes,
        ExtractorType::Text,
        ExtractorType::Html,
        ExtractorType::Xml,
        ExtractorType::JavaScript,
    ] {
        let params = vec![info("body", "B", kind), info("q", "Q", ExtractorType::Query)];
        assert_eq!(
            plan_bindings(&params),
            vec![own(ExtractorType::Query, "q", "Q"), own(kind, "body", "B")]
        );
        assert_eq!(rank_of(kind), 6);
    }
    assert_eq!(rank_of(ExtractorType::Path), 0);
    assert_eq!(rank_of(ExtractorType::State), 1);
    assert_eq!(rank_of(ExtractorType::HeaderParam), 2);
    assert_eq!(rank_of(ExtractorType::CookieParam), 3);
    assert_eq!(rank_of(ExtractorType::SessionParam), 4);
    assert_eq!(rank_of(ExtractorType::Query), 5);
    assert_eq!(rank_of(ExtractorType::Plain), 7);
}

#[test]
fn no_parameters_give_no_bindings() {
    assert_eq!(plan_bindings(&vec![]), vec![]);
    assert_eq!(plan_arguments(&vec![]), vec![]);
}

#[test]
fn header_names_turn_underscores_into_hyphens() {
    assert_eq!(header_name_for("user_agent"), "user-agent");
    assert_eq!(header_name_for("x_request_id"), "x-request-id");
    assert_eq!(header_name_for("accept"), "accept");
    assert_eq!(header_name_for("_"), "-");
    assert_eq!(header_name_for(""), "");
}

#[test]
fn an_adapter_is_needed_for_managed_parameters() {
    assert!(!needs_wrapper(&vec![]));
    assert!(!needs_wrapper(&vec![info("a", "A", ExtractorType::Plain)]));
    assert!(needs_wrapper(&vec![
        info("a", "A", ExtractorType::Plain),
        info("b", "B", ExtractorType::Query)
    ]));
    assert!(has_kind(&vec![info("b", "B", ExtractorType::Query)], ExtractorType::Query));
    assert!(!has_kind(&vec![info("b", "B", ExtractorType::Query)], ExtractorType::Json));
    assert!(!adapter_needed(&entry("list", vec![]), &no_config()));
    assert!(adapter_needed(
        &entry("get_one", vec![info("id", "u32", ExtractorType::Path)]),
        &no_config()
    ));
}

#[test]
fn an_adapter_is_needed_for_response_headers_of_route_or_controller() {
    let mut with_header = entry("a", vec![]);
    with_header.route.response_headers = pairs(&[("x-a", "1")]);
    assert!(adapter_needed(&with_header, &no_config()));
    let mut with_type = entry("b", vec![]);
    with_type.route.content_type = Some("text/plain".to_string());
    assert!(adapter_needed(&with_type, &no_config()));
    let mut inherited_header = no_config();
    inherited_header.response_headers = pairs(&[("x-a", "1")]);
    assert!(adapter_needed(&entry("c", vec![]), &inherited_header));
    let mut inherited_type = no_config();
    inherited_type.content_type = Some("application/json".to_string());
    assert!(adapter_needed(&entry("d", vec![]), &inherited_type));
}

#[test]
fn nested_path_scenario_gives_the_adapter() {
    let e = RouteEntry {
        handler: "get_post".to_string(),
        is_async: true,
        return_type: "-> String".to_string(),
        route: RouteInfo {
            method: HttpMethod::Get,
            path: "/users/{id}/posts/{post_id}".to_string(),
            extractors: {
                let mut m = ExtractorMap::new();
                m.insert("id".to_string(), ExtractorType::Path);
                m.insert("post_id".to_string(), ExtractorType::Path);
                m
            },
            response_headers: vec![],
            content_type: None,
        },
        params: vec![
            info("id", "u32", ExtractorType::Path),
            info("post_id", "u32", ExtractorType::Path),
        ],
    };
    let plan = plan_adapter(&e, &no_config());
    assert_eq!(
        plan,
        AdapterPlan {
            handler: "get_post".to_string(),
            name: "get_post_wrapper".to_string(),
            is_async: true,
            return_type: "-> String".to_string(),
            bindings: vec![path(&[("id", "u32"), ("post_id", "u32")])],
            arguments: vec![value("id"), value("post_id")],
            headers: vec![],
            content_type: None,
        }
    );
    assert_eq!(plan.bindings[0], path(&[("id", "u32"), ("post_id", "u32")]));
    assert!(!plan.wraps_response());
}

#[test]
fn route_content_type_replaces_the_controllers() {
    let mut e = entry("plain", vec![]);
    e.route.content_type = Some("text/plain".to_string());
    let mut config = no_config();
    config.content_type = Some("application/json".to_string());
    let plan = plan_adapter(&e, &config);
    assert_eq!(plan.content_type, Some("text/plain".to_string()));
    assert_eq!(plan.headers, vec![]);
    assert!(plan.wraps_response());
}

#[test]
fn controller_content_type_is_inherited() {
    let e = entry("plain", vec![]);
    let mut config = no_config();
    config.content_type = Some("application/json".to_string());
    let plan = plan_adapter(&e, &config);
    assert_eq!(plan.content_type, Some("application/json".to_string()));
}

#[test]
fn route_headers_override_the_controllers_by_name() {
    let mut e = entry("h", vec![]);
    e.route.response_headers = pairs(&[("A", "3"), ("C", "4")]);
    let mut config = no_config();
    config.response_headers = pairs(&[("A", "1"), ("B", "2")]);
    let plan = plan_adapter(&e, &config);
    assert_eq!(plan.headers, pairs(&[("A", "3"), ("B", "2"), ("C", "4")]));
    assert!(plan.wraps_response());
}

#[test]
fn adapters_are_planned_only_for_routes_that_need_one() {
    let entries = vec![
        entry("list", vec![]),
        entry("get_one", vec![info("id", "u32", ExtractorType::Path)]),
        entry("passthrough", vec![info("raw", "Request", ExtractorType::Plain)]),
        entry("create", vec![info("user", "User", ExtractorType::Json)]),
    ];
    let plans = generate_wrapper_functions(&entries, &no_config());
    let names: Vec<&str> = plans.iter().map(|p| p.name.as_str()).collect();
    assert_eq!(names, vec!["get_one_wrapper", "create_wrapper"]);
    assert_eq!(plans[1].handler, "create");
    assert_eq!(plans[1].bindings, vec![own(ExtractorType::Json, "user", "User")]);
}

#[test]
fn controller_headers_give_every_route_an_adapter() {
    let entries = vec![entry("list", vec![]), entry("other", vec![])];
    let mut config = no_config();
    config.response_headers = pairs(&[("x-powered-by", "rc")]);
    let plans = generate_wrapper_functions(&entries, &config);
    assert_eq!(plans.len(), 2);
    assert_eq!(plans[0].name, "list_wrapper");
    assert_eq!(plans[0].headers, pairs(&[("x-powered-by", "rc")]));
    assert_eq!(plans[0].bindings, vec![]);
    assert_eq!(plans[0].arguments, vec![]);
    assert_eq!(plans[1].name, "other_wrapper");
}

#[test]
fn sync_handlers_give_sync_adapters() {
    let mut e = entry("sync_one", vec![info("id", "u32", ExtractorType::Path)]);
    e.is_async = false;
    e.return_type = String::new();
    let plan = plan_adapter(&e, &no_config());
    assert!(!plan.is_async);
    assert_eq!(plan.return_type, "");
}
