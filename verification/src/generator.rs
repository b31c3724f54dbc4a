//! Planning of adapters and assembly of the router.

pub mod middleware;
pub mod router;
pub mod wrappers;

pub use middleware::apply_middlewares;
pub use middleware::apply_route_prefix;
pub use router::generate_base_router;
pub use router::generate_route_registrations;
pub use router::generate_router_impl;
pub use router::RouteRegistration;
pub use router::RouterExpr;
pub use router::RouterImpl;
pub use wrappers::generate_wrapper_functions;
pub use wrappers::AdapterPlan;
pub use wrappers::Binding;
pub use wrappers::CallArgument;
