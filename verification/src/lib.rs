//! A compiler from controller annotations to routing plans.
//!
//! A controller is a group of handler declarations that share a path
//! prefix, middleware and default response headers. Each handler carries a
//! route annotation: an HTTP method, a path and a map from parameter names to
//! extractor kinds. This library parses the annotation text, validates it,
//! plans how every handler parameter is bound, and assembles the plan of the
//! router. It reports what it finds as explicit diagnostics.

pub mod assoc;
pub mod controller;
pub mod diagnostics;
pub mod generator;
pub mod headers;
pub mod laws;
pub mod parser;
pub mod registry;
pub mod text;

pub use controller::controller_impl;
pub use diagnostics::Diagnostic;
pub use diagnostics::DiagnosticCode;
pub use diagnostics::Diagnostics;
pub use diagnostics::Severity;
pub use registry::HandlerDecl;
pub use registry::RouteEntry;
