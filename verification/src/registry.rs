//! The route registry of a controller: its handlers that are routes, in
//! source order, each with its route descriptor and resolved parameters.

use crate::diagnostics::DiagnosticView;
use crate::diagnostics::Diagnostics;
use crate::parser::extractor_types::Capabilities;
use crate::parser::params::analyze_params;
use crate::parser::params::param_diagnostics;
use crate::parser::params::resolved_params;
use crate::parser::params::ParamDecl;
use crate::parser::params::ParamDeclView;
use crate::parser::params::ParamInfo;
use crate::parser::params::ParamInfoView;
use crate::parser::route::extract_route_from_attrs;
use crate::parser::route::route_from_annotations;
use crate::parser::route::RouteInfo;
use crate::parser::route::RouteInfoView;
use vstd::prelude::*;

verus! {

/// One handler declaration of a controller, as the compiler reads it.
#[derive(Clone, Debug, PartialEq, Eq)]
pub struct HandlerDecl {
    /// The handler's name.
    pub name: String,
    /// Whether the handler is declared `async`.
    pub is_async: bool,
    /// The declared return type with its arrow, as written; empty where
    /// none is declared.
    pub return_type: String,
    /// The text of each annotation on the handler, in order.
    pub annotations: Vec<String>,
    /// The declared parameters, in order, without a receiver.
    pub params: Vec<ParamDecl>,
}

/// A handler declaration as a mathematical value.
pub struct HandlerDeclView {
    pub name: Seq<char>,
    pub is_async: bool,
    pub return_type: Seq<char>,
    pub annotations: Seq<Seq<char>>,
    pub params: Seq<ParamDeclView>,
}

impl DeepView for HandlerDecl {
    type V = HandlerDeclView;

    open spec fn deep_view(&self) -> HandlerDeclView {
        HandlerDeclView {
            name: self.name@,
            is_async: self.is_async,
            return_type: self.return_type@,
            annotations: self.annotations.deep_view(),
            params: self.params.deep_view(),
        }
    }
}

impl View for HandlerDecl {
    type V = HandlerDeclView;

    open spec fn view(&self) -> HandlerDeclView {
        self.deep_view()
    }
}

/// A handler that is a route.
#[derive(Clone, Debug, PartialEq, Eq)]
pub struct RouteEntry {
    /// The handler's name.
    pub handler: String,
    /// Whether the handler is declared `async`.
    pub is_async: bool,
    /// The handler's declared return type, as written.
    pub return_type: String,
    /// What the handler's route annotation declares.
    pub route: RouteInfo,
    /// The handler's parameters in declared order, each with its resolved
    /// extractor kind.
    pub params: Vec<ParamInfo>,
}

/// A route entry as a mathematical value.
pub struct RouteEntryView {
    pub handler: Seq<char>,
    pub is_async: bool,
    pub return_type: Seq<char>,
    pub route: RouteInfoView,
    pub params: Seq<ParamInfoView>,
}

impl DeepView for RouteEntry {
    type V = RouteEntryView;

    open spec fn deep_view(&self) -> RouteEntryView {
        RouteEntryView {
            handler: self.handler@,
            is_async: self.is_async,
            return_type: self.return_type@,
            route: self.route.deep_view(),
            params: self.params.deep_view(),
        }
    }
}

impl View for RouteEntry {
    type V = RouteEntryView;

    open spec fn view(&self) -> RouteEntryView {
        self.deep_view()
    }
}

/// The route entry of the handler `h`, where its annotations make it a
/// route, and what is reported of the handler: first of its annotations,
/// then, for a route, of its parameters.
pub open spec fn entry_of(h: HandlerDeclView, caps: Capabilities) -> (
    Option<RouteEntryView>,
    Seq<DiagnosticView>,
) {
    let found = route_from_annotations(h.annotations, caps);
    match found.0 {
        Some(route) => (
            Some(
                RouteEntryView {
                    handler: h.name,
                    is_async: h.is_async,
                    return_type: h.return_type,
                    route,
                    params: resolved_params(h.params, route.extractors),
                },
            ),
            found.1 + param_diagnostics(h.params, route.extractors),
        ),
        None => (None, found.1),
    }
}

/// The route entries of the handlers `hs`, in source order, and what is
/// reported of the handlers, in source order. A handler whose annotations
/// name no HTTP method is no route and has no entry.
pub open spec fn registry_of(hs: Seq<HandlerDeclView>, caps: Capabilities) -> (
    Seq<RouteEntryView>,
    Seq<DiagnosticView>,
)
    decreases hs.len(),
{
    if hs.len() == 0 {
        (Seq::empty(), Seq::empty())
    } else {
        let before = registry_of(hs.drop_last(), caps);
        let last = entry_of(hs.last(), caps);
        (
            match last.0 {
                Some(entry) => before.0.push(entry),
                None => before.0,
            },
            before.1 + last.1,
        )
    }
}

/// Reads the route of one handler and resolves its parameters.
pub fn read_handler(
    handler: &HandlerDecl,
    capabilities: &Capabilities,
    diagnostics: &mut Diagnostics,
) -> (entry: Option<RouteEntry>)
    ensures
        entry.deep_view() == entry_of(handler.deep_view(), *capabilities).0,
        final(diagnostics)@ == old(diagnostics)@ + entry_of(handler.deep_view(), *capabilities).1,
{
    match extract_route_from_attrs(&handler.annotations, capabilities, diagnostics) {
        Some(route) => {
            let params = analyze_params(&handler.params, &route.extractors, diagnostics);
            assert(diagnostics@ =~= old(diagnostics)@ + entry_of(
                handler.deep_view(),
                *capabilities,
            ).1);
            Some(
                RouteEntry {
                    handler: handler.name.clone(),
                    is_async: handler.is_async,
                    return_type: handler.return_type.clone(),
                    route,
                    params,
                },
            )
        },
        None => None,
    }
}

/// Walks the handlers of a controller in source order and collects those
/// that are routes.
pub fn build_route_registry(
    handlers: &Vec<HandlerDecl>,
    capabilities: &Capabilities,
    diagnostics: &mut Diagnostics,
) -> (entries: Vec<RouteEntry>)
    ensures
        entries.deep_view() == registry_of(handlers.deep_view(), *capabilities).0,
        final(diagnostics)@ == old(diagnostics)@ + registry_of(
            handlers.deep_view(),
            *capabilities,
        ).1,
{
    let ghost start = diagnostics@;
    let ghost hs = handlers.deep_view();
    let mut entries: Vec<RouteEntry> = Vec::new();
    assert(entries.deep_view() =~= registry_of(hs.take(0), *capabilities).0);
    assert(diagnostics@ =~= start + registry_of(hs.take(0), *capabilities).1);
    let mut i: usize = 0;
    while i < handlers.len()
        invariant
            i <= handlers.len(),
            hs == handlers.deep_view(),
            entries.deep_view() == registry_of(hs.take(i as int), *capabilities).0,
            diagnostics@ == start + registry_of(hs.take(i as int), *capabilities).1,
        decreases handlers.len() - i,
    {
        assert(hs.take(i + 1).drop_last() =~= hs.take(i as int));
        match read_handler(&handlers[i], capabilities, diagnostics) {
            Some(entry) => {
                let ghost before = entries.deep_view();
                entries.push(entry);
                assert(entries.deep_view() =~= before.push(entry.deep_view()));
            },
            None => {},
        }
        assert(diagnostics@ =~= start + registry_of(hs.take(i + 1), *capabilities).1);
        i += 1;
    }
    assert(hs.take(i as int) =~= hs);
    entries
}

} // verus!
