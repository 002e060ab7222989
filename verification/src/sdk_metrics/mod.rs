//! The metrics of the HTTP servers: the report that is served, and what
//! each request adds to it.

pub mod http_metrics_middleware;
pub mod http_metrics_tech_middleware;
