//! The routing table: one registration for each route, and the plan of
//! the controller's router.

use crate::generator::wrappers::adapter_name;
use crate::generator::wrappers::adapter_needed;
use crate::generator::wrappers::find_state_type;
use crate::generator::wrappers::generate_wrapper_functions;
use crate::generator::wrappers::needs_adapter;
use crate::generator::wrappers::planned_adapters;
use crate::generator::wrappers::state_type;
use crate::generator::wrappers::AdapterPlan;
use crate::generator::wrappers::AdapterPlanView;
use crate::parser::config::ControllerConfig;
use crate::parser::config::ControllerConfigView;
use crate::parser::extractor_types::HttpMethod;
use crate::registry::RouteEntry;
use crate::registry::RouteEntryView;
use vstd::prelude::*;
use vstd::string::StringExecFns;

verus! {

/// One entry of the routing table: requests of `method` on `path` go to
/// `target`.
#[derive(Clone, Debug, PartialEq, Eq)]
pub struct RouteRegistration {
    pub path: String,
    pub method: HttpMethod,
    /// The name of what answers the route: the handler's adapter where it
    /// has one, else the handler.
    pub target: String,
    /// Whether `target` is an adapter.
    pub through_adapter: bool,
}

/// A registration as a mathematical value.
pub struct RouteRegistrationView {
    pub path: Seq<char>,
    pub method: HttpMethod,
    pub target: Seq<char>,
    pub through_adapter: bool,
}

impl DeepView for RouteRegistration {
    type V = RouteRegistrationView;

    open spec fn deep_view(&self) -> RouteRegistrationView {
        RouteRegistrationView {
            path: self.path@,
            method: self.method,
            target: self.target@,
            through_adapter: self.through_adapter,
        }
    }
}

impl View for RouteRegistration {
    type V = RouteRegistrationView;

    open spec fn view(&self) -> RouteRegistrationView {
        self.deep_view()
    }
}

/// The plan of a router: a routing table, decorated from the inside out.
#[derive(Debug, PartialEq, Eq)]
pub enum RouterExpr {
    /// A router of these routes.
    Routes { registrations: Vec<RouteRegistration> },
    /// `inner`, wrapped in the middleware `middleware`, which sees every
    /// request before `inner` does.
    Layer { inner: Box<RouterExpr>, middleware: String },
    /// `inner`, nested under the path prefix `prefix`.
    Nest { prefix: String, inner: Box<RouterExpr> },
}

/// The plan of a router as a mathematical value.
pub enum RouterView {
    Routes { registrations: Seq<RouteRegistrationView> },
    Layer { inner: Box<RouterView>, middleware: Seq<char> },
    Nest { prefix: Seq<char>, inner: Box<RouterView> },
}

/// The mathematical value of the plan `router`.
pub open spec fn router_view(router: RouterExpr) -> RouterView
    decreases router,
{
    match router {
        RouterExpr::Routes { registrations } => RouterView::Routes {
            registrations: registrations.deep_view(),
        },
        RouterExpr::Layer { inner, middleware } => RouterView::Layer {
            inner: Box::new(router_view(*inner)),
            middleware: middleware@,
        },
        RouterExpr::Nest { prefix, inner } => RouterView::Nest {
            prefix: prefix@,
            inner: Box::new(router_view(*inner)),
        },
    }
}

impl DeepView for RouterExpr {
    type V = RouterView;

    open spec fn deep_view(&self) -> RouterView {
        router_view(*self)
    }
}

impl View for RouterExpr {
    type V = RouterView;

    open spec fn view(&self) -> RouterView {
        self.deep_view()
    }
}

/// What the compiler makes of one controller.
#[derive(Debug, PartialEq, Eq)]
pub struct RouterImpl {
    /// The adapters, in the order of their routes.
    pub adapters: Vec<AdapterPlan>,
    /// The type of the application state that the router is generic over,
    /// where a handler asks for the state.
    pub state_type: Option<String>,
    /// The router.
    pub router: RouterExpr,
}

/// The compiler's result as a mathematical value.
pub struct RouterImplView {
    pub adapters: Seq<AdapterPlanView>,
    pub state_type: Option<Seq<char>>,
    pub router: RouterView,
}

impl DeepView for RouterImpl {
    type V = RouterImplView;

    open spec fn deep_view(&self) -> RouterImplView {
        RouterImplView {
            adapters: self.adapters.deep_view(),
            state_type: self.state_type.deep_view(),
            router: self.router.deep_view(),
        }
    }
}

impl View for RouterImpl {
    type V = RouterImplView;

    open spec fn view(&self) -> RouterImplView {
        self.deep_view()
    }
}

/// The registration of the route of `entry`: under its method and path,
/// to its adapter where it needs one, else to the handler itself.
pub open spec fn registration_of(entry: RouteEntryView, config: ControllerConfigView)
    -> RouteRegistrationView {
    RouteRegistrationView {
        path: entry.route.path,
        method: entry.route.method,
        target: if needs_adapter(entry, config) {
            adapter_name(entry.handler)
        } else {
            entry.handler
        },
        through_adapter: needs_adapter(entry, config),
    }
}

/// The registrations of the routes of `entries`, one for each, in their
/// order.
pub open spec fn registrations_of(entries: Seq<RouteEntryView>, config: ControllerConfigView)
    -> Seq<RouteRegistrationView> {
    Seq::new(entries.len(), |i: int| registration_of(entries[i], config))
}

/// The state type of a controller: the type of the first `State`
/// parameter of its first route that has one.
pub open spec fn controller_state_type(entries: Seq<RouteEntryView>) -> Option<Seq<char>>
    decreases entries.len(),
{
    if entries.len() == 0 {
        None
    } else {
        match controller_state_type(entries.drop_last()) {
            Some(ty) => Some(ty),
            None => state_type(entries.last().params),
        }
    }
}

/// Registers every route under its method and path.
pub fn generate_route_registrations(entries: &Vec<RouteEntry>, config: &ControllerConfig) -> (regs:
    Vec<RouteRegistration>)
    ensures
        regs.deep_view() == registrations_of(entries.deep_view(), config.deep_view()),
{
    let ghost es = entries.deep_view();
    let ghost cv = config.deep_view();
    let mut regs: Vec<RouteRegistration> = Vec::new();
    let mut i: usize = 0;
    while i < entries.len()
        invariant
            i <= entries.len(),
            es == entries.deep_view(),
            cv == config.deep_view(),
            regs.len() == i,
            forall|j: int| 0 <= j < i ==> regs.deep_view()[j] == registration_of(es[j], cv),
        decreases entries.len() - i,
    {
        let entry = &entries[i];
        let through_adapter = adapter_needed(entry, config);
        let mut target = entry.handler.clone();
        if through_adapter {
            target.append("_wrapper");
        }
        let ghost before = regs.deep_view();
        let reg = RouteRegistration {
            path: entry.route.path.clone(),
            method: entry.route.method,
            target,
            through_adapter,
        };
        regs.push(reg);
        assert(regs.deep_view() =~= before.push(reg.deep_view()));
        i += 1;
    }
    assert(regs.deep_view() =~= registrations_of(es, cv));
    regs
}

/// The router of the registrations, before any decoration.
pub fn generate_base_router(registrations: Vec<RouteRegistration>) -> (router: RouterExpr)
    ensures
        router.deep_view() == (RouterView::Routes { registrations: registrations.deep_view() }),
{
    RouterExpr::Routes { registrations }
}

/// The state type of the controller of `entries`.
pub fn find_controller_state_type(entries: &Vec<RouteEntry>) -> (ty: Option<String>)
    ensures
        ty.deep_view() == controller_state_type(entries.deep_view()),
{
    let ghost es = entries.deep_view();
    let mut i: usize = 0;
    while i < entries.len()
        invariant
            i <= entries.len(),
            es == entries.deep_view(),
            controller_state_type(es.take(i as int)) is None,
        decreases entries.len() - i,
    {
        assert(es.take(i + 1).drop_last() =~= es.take(i as int));
        match find_state_type(&entries[i].params) {
            Some(ty) => {
                proof {
                    lemma_state_type_prefix(es, i + 1);
                }
                return Some(ty);
            },
            None => {},
        }
        i += 1;
    }
    assert(es.take(i as int) =~= es);
    None
}

/// The state type found in a prefix of the routes is the controller's.
pub proof fn lemma_state_type_prefix(entries: Seq<RouteEntryView>, k: int)
    requires
        0 <= k <= entries.len(),
        controller_state_type(entries.take(k)) is Some,
    ensures
        controller_state_type(entries) == controller_state_type(entries.take(k)),
    decreases entries.len() - k,
{
    if k < entries.len() {
        assert(entries.take(k + 1).drop_last() =~= entries.take(k));
        lemma_state_type_prefix(entries, k + 1);
    } else {
        assert(entries.take(k) =~= entries);
    }
}

/// Puts together what the compiler makes of a controller: the adapters of
/// its routes, its state type, and the router `final_router`.
pub fn generate_router_impl(
    entries: &Vec<RouteEntry>,
    config: &ControllerConfig,
    final_router: RouterExpr,
) -> (artifact: RouterImpl)
    ensures
        artifact.deep_view() == (RouterImplView {
            adapters: planned_adapters(entries.deep_view(), config.deep_view()),
            state_type: controller_state_type(entries.deep_view()),
            router: final_router.deep_view(),
        }),
{
    RouterImpl {
        adapters: generate_wrapper_functions(entries, config),
        state_type: find_controller_state_type(entries),
        router: final_router,
    }
}

} // verus!
