//! The compiler pass over one controller.

use crate::diagnostics::diagnostic;
use crate::diagnostics::has_error;
use crate::diagnostics::DiagnosticCode;
use crate::diagnostics::DiagnosticView;
use crate::diagnostics::Diagnostics;
use crate::generator::middleware::apply_middlewares;
use crate::generator::middleware::apply_route_prefix;
use crate::generator::middleware::layered;
use crate::generator::middleware::prefixed;
use crate::generator::router::controller_state_type;
use crate::generator::router::generate_base_router;
use crate::generator::router::generate_route_registrations;
use crate::generator::router::generate_router_impl;
use crate::generator::router::registrations_of;
use crate::generator::router::RouterImpl;
use crate::generator::router::RouterImplView;
use crate::generator::router::RouterView;
use crate::generator::wrappers::planned_adapters;
use crate::parser::config::parse_controller_attributes;
use crate::parser::config::parsed_config;
use crate::parser::config::ControllerConfigView;
use crate::parser::extractor_types::Capabilities;
use crate::registry::build_route_registry;
use crate::registry::registry_of;
use crate::registry::HandlerDecl;
use crate::registry::HandlerDeclView;
use crate::registry::RouteEntryView;
use vstd::prelude::*;

verus! {

/// The router of a controller: its routes, wrapped in its middleware and
/// then nested under its prefix. A controller without routes gets the bare
/// router of no routes, which finds nothing under any path.
pub open spec fn assembled_router(entries: Seq<RouteEntryView>, config: ControllerConfigView)
    -> RouterView {
    let base = RouterView::Routes { registrations: registrations_of(entries, config) };
    if entries.len() == 0 {
        base
    } else {
        prefixed(layered(base, config.middlewares), config.route_prefix)
    }
}

/// What the compiler makes of the controller with the annotation `attr`
/// and the handlers `handlers`, and what it reports: first of the
/// controller annotation, then of the handlers in source order, and last
/// that there are no routes.
pub open spec fn compiled(attr: Seq<char>, handlers: Seq<HandlerDeclView>, caps: Capabilities) -> (
    RouterImplView,
    Seq<DiagnosticView>,
) {
    let config = parsed_config(attr);
    let registry = registry_of(handlers, caps);
    (
        RouterImplView {
            adapters: planned_adapters(registry.0, config.0),
            state_type: controller_state_type(registry.0),
            router: assembled_router(registry.0, config.0),
        },
        config.1 + registry.1 + if registry.0.len() == 0 {
            seq![
                diagnostic(
                    DiagnosticCode::NoRoutes,
                    Seq::<char>::empty(),
                    Seq::<char>::empty(),
                ),
            ]
        } else {
            Seq::empty()
        },
    )
}

/// Compiles one controller: reads its annotation and the annotations of
/// its handlers, validates them, plans the adapters and assembles the
/// router.
///
/// Everything found is reported, whether or not the pass succeeds. The
/// result is withheld exactly where a fatal diagnostic was reported in
/// this pass.
pub fn controller_impl(
    attr: &str,
    handlers: &Vec<HandlerDecl>,
    capabilities: &Capabilities,
    diagnostics: &mut Diagnostics,
) -> (artifact: Option<RouterImpl>)
    ensures
        final(diagnostics)@ == old(diagnostics)@ + compiled(
            attr@,
            handlers.deep_view(),
            *capabilities,
        ).1,
        artifact.deep_view() == if has_error(
            compiled(attr@, handlers.deep_view(), *capabilities).1,
        ) {
            None
        } else {
            Some(compiled(attr@, handlers.deep_view(), *capabilities).0)
        },
{
    let mut found = Diagnostics::new();
    let config = parse_controller_attributes(attr, &mut found);
    let entries = build_route_registry(handlers, capabilities, &mut found);
    let registrations = generate_route_registrations(&entries, &config);
    let base_router = generate_base_router(registrations);
    let final_router = if entries.len() == 0 {
        found.report(DiagnosticCode::NoRoutes, String::new(), String::new());
        base_router
    } else {
        let layered_router = apply_middlewares(base_router, &config.middlewares);
        apply_route_prefix(layered_router, config.route_prefix.as_ref())
    };
    assert(found@ =~= compiled(attr@, handlers.deep_view(), *capabilities).1);
    let failed = found.has_errors();
    diagnostics.absorb(found);
    if failed {
        None
    } else {
        Some(generate_router_impl(&entries, &config, final_router))
    }
}

} // verus!
