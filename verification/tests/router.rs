use route_controller::generator::apply_middlewares;
use route_controller::generator::apply_route_prefix;
use route_controller::generator::generate_base_router;
use route_controller::generator::generate_route_registrations;
use route_controller::generator::generate_router_impl;
use route_controller::generator::router::find_controller_state_type;
use route_controller::generator::wrappers::find_state_type;
use route_controller::generator::RouteRegistration;
use route_controller::generator::RouterExpr;
use route_controller::parser::ControllerConfig;
use route_controller::parser::ExtractorMap;
use route_controller::parser::ExtractorType;
use route_controller::parser::HttpMethod;
use route_controller::parser::ParamInfo;
use route_controller::parser::RouteInfo;
use route_controller::RouteEntry;

fn info(pattern: &str, ty: &str, kind: ExtractorType) -> ParamInfo {
    ParamInfo {
        pattern: pattern.to_string(),
        ty: ty.to_string(),
        is_ident: true,
        extractor_type: kind,
    }
}

fn no_config() -> ControllerConfig {
    ControllerConfig {
        route_prefix: None,
        middlewares: vec![],
        response_headers: vec![],
        content_type: None,
    }
}

fn entry(handler: &str, method: HttpMethod, path: &str, params: Vec<ParamInfo>) -> RouteEntry {
    RouteEntry {
        handler: handler.to_string(),
        is_async: true,
        return_type: "-> String".to_string(),
        route: RouteInfo {
            method,
            path: path.to_string(),
            extractors: ExtractorMap::new(),
            response_headers: vec![],
            content_type: None,
        },
        params,
    }
}

fn reg(path: &str, method: HttpMethod, target: &str, through_adapter: bool) -> RouteRegistration {
    RouteRegistration {
        path: path.to_string(),
        method,
        target: target.to_string(),
        through_adapter,
    }
}

fn routes(regs: Vec<RouteRegistration>) -> RouterExpr {
    RouterExpr::Routes { registrations: regs }
}

fn layer(middleware: &str, inner: RouterExpr) -> RouterExpr {
    RouterExpr::Layer { inner: Box::new(inner), middleware: middleware.to_string() }
}

fn names(list: &[&str]) -> Vec<String> {
    list.iter().map(|m| m.to_string()).collect()
}

#[test]
fn routes_register_their_adapter_or_their_handler() {
    let entries = vec![
        entry("list", HttpMethod::Get, "/", vec![]),
        entry("get_one", HttpMethod::Get, "/{id}", vec![info("id", "u32", ExtractorType::Path)]),
        entry("create", HttpMethod::Post, "/", vec![info("user", "User", ExtractorType::Json)]),
        entry("raw", HttpMethod::Put, "/raw", vec![info("req", "Request", ExtractorType::Plain)]),
    ];
    assert_eq!(
        generate_route_registrations(&entries, &no_config()),
        vec![
            reg("/", HttpMethod::Get, "list", false),
            reg("/{id}", HttpMethod::Get, "get_one_wrapper", true),
            reg("/", HttpMethod::Post, "create_wrapper", true),
            reg("/raw", HttpMethod::Put, "raw", false),
        ]
    );
}

#[test]
fn controller_headers_route_every_handler_through_an_adapter() {
    let entries = vec![entry("list", HttpMethod::Get, "/", vec![])];
    let mut config = no_config();
    config.content_type = Some("application/json".to_string());
    assert_eq!(
        generate_route_registrations(&entries, &config),
        vec![reg("/", HttpMethod::Get, "list_wrapper", true)]
    );
}

#[test]
fn no_routes_give_no_registrations() {
    assert_eq!(generate_route_registrations(&vec![], &no_config()), vec![]);
    assert_eq!(generate_base_router(vec![]), routes(vec![]));
}

#[test]
fn base_router_holds_the_registrations_as_given() {
    let regs = vec![reg("/a", HttpMethod::Get, "a", false), reg("/b", HttpMethod::Post, "b", false)];
    assert_eq!(generate_base_router(regs.clone()), routes(regs));
}

#[test]
fn no_middleware_leaves_the_router_as_it_is() {
    let base = routes(vec![reg("/a", HttpMethod::Get, "a", false)]);
    assert_eq!(
        apply_middlewares(base, &vec![]),
        routes(vec![reg("/a", HttpMethod::Get, "a", false)])
    );
}

#[test]
fn first_declared_middleware_is_the_outermost_layer() {
    let wrapped = apply_middlewares(routes(vec![]), &names(&["first", "second", "third"]));
    assert_eq!(wrapped, layer("first", layer("second", layer("third", routes(vec![])))));
}

#[test]
fn one_middleware_gives_one_layer() {
    assert_eq!(
        apply_middlewares(routes(vec![]), &names(&["log_middleware"])),
        layer("log_middleware", routes(vec![]))
    );
}

#[test]
fn middleware_wraps_a_router_that_is_wrapped_already() {
    let once = apply_middlewares(routes(vec![]), &names(&["inner"]));
    let twice = apply_middlewares(once, &names(&["outer_a", "outer_b"]));
    assert_eq!(twice, layer("outer_a", layer("outer_b", layer("inner", routes(vec![])))));
}

#[test]
fn prefix_nests_the_whole_router() {
    let wrapped = apply_middlewares(routes(vec![]), &names(&["m"]));
    let prefix = "/api".to_string();
    assert_eq!(
        apply_route_prefix(wrapped, Some(&prefix)),
        RouterExpr::Nest {
            prefix: "/api".to_string(),
            inner: Box::new(layer("m", routes(vec![])))
        }
    );
    assert_eq!(apply_route_prefix(routes(vec![]), None), routes(vec![]));
}

#[test]
fn state_type_is_the_first_state_parameter_of_the_first_route_that_has_one() {
    let entries = vec![
        entry("a", HttpMethod::Get, "/a", vec![info("id", "u32", ExtractorType::Query)]),
        entry(
            "b",
            HttpMethod::Get,
            "/b",
            vec![
                info("q", "Q", ExtractorType::Query),
                info("state", "AppState", ExtractorType::State),
                info("other", "Other", ExtractorType::State),
            ],
        ),
        entry("c", HttpMethod::Get, "/c", vec![info("s", "Third", ExtractorType::State)]),
    ];
    assert_eq!(find_controller_state_type(&entries), Some("AppState".to_string()));
    assert_eq!(find_controller_state_type(&entries[..1].to_vec()), None);
    assert_eq!(find_controller_state_type(&vec![]), None);
    assert_eq!(find_state_type(&entries[1].params), Some("AppState".to_string()));
    assert_eq!(find_state_type(&entries[0].params), None);
}

#[test]
fn router_impl_puts_adapters_state_and_router_together() {
    let entries = vec![
        entry("list", HttpMethod::Get, "/", vec![]),
        entry("counter", HttpMethod::Get, "/n", vec![info("state", "AppState", ExtractorType::State)]),
    ];
    let config = no_config();
    let regs = generate_route_registrations(&entries, &config);
    let router = generate_base_router(regs);
    let artifact = generate_router_impl(&entries, &config, router);
    assert_eq!(artifact.state_type, Some("AppState".to_string()));
    assert_eq!(artifact.adapters.len(), 1);
    assert_eq!(artifact.adapters[0].name, "counter_wrapper");
    assert_eq!(
        artifact.router,
        routes(vec![
            reg("/", HttpMethod::Get, "list", false),
            reg("/n", HttpMethod::Get, "counter_wrapper", true)
        ])
    );
}
