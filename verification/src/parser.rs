//! Parsing and validation of controller and route annotations.

pub mod arguments;
pub mod config;
pub mod extractor_types;
pub mod params;
pub mod route;

pub use config::parse_controller_attributes;
pub use config::ControllerConfig;
pub use extractor_types::validate_extractors;
pub use extractor_types::Capabilities;
pub use extractor_types::ExtractorMap;
pub use extractor_types::ExtractorType;
pub use extractor_types::HttpMethod;
pub use params::analyze_params;
pub use params::ParamDecl;
pub use params::ParamInfo;
pub use route::extract_route_from_attrs;
pub use route::validate_path_parameters;
pub use route::RouteInfo;
