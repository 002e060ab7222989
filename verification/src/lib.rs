//! Verified core of a service bootstrap toolkit: the decisions behind the
//! HTTP and gRPC server builders, the request metrics, and the application
//! lifecycle, each with a machine-checked contract.
//!
//! The library decides and describes; it opens no socket and starts no
//! task. Handlers, middlewares, services and callbacks are values of the
//! caller's own types, which the library stores, orders and hands back.

pub mod app_states;
pub mod builders;
pub mod consts;
pub mod controllers;
pub mod decimal;
pub mod http_result;
pub mod http_server;
pub mod liveness;
pub mod sdk_metrics;
pub mod service_context;
pub mod settings;
pub mod text;
pub mod transport;

pub use app_states::{ApplicationState, LifecycleEvent};
pub use builders::grpc_server_builder::{
    get_grpc_port, GrpcLayer, GrpcListener, GrpcRouter, GrpcServerBuilder,
};
pub use builders::http_server_builder::HttpServerBuilder;
pub use builders::http_server_config::HttpServerConfig;
pub use builders::unix_socket_enabled::{local_socket_transport, unix_socket_enabled};
pub use consts::{get_default_ip_address, DEFAULT_GRPC_PORT, DEFAULT_HTTP_PORT};
pub use controllers::{
    ActionResolution, ControllersAuthorization, ControllersMiddleware, HttpVerb, RegisteredAction,
    RequiredClaim,
};
pub use http_result::{HttpFailResult, HttpOkResult, HttpOutput};
pub use http_server::{HttpServer, Middleware, TechMiddleware};
pub use liveness::{liveness_probe, LivenessReport};
pub use sdk_metrics::http_metrics_middleware::{
    render_families, report_response, GatheredFamily, MetricKind, MetricsMiddleware,
};
pub use sdk_metrics::http_metrics_tech_middleware::{
    DateTimeAsMicroseconds, HttpRequestData, Label, MetricSeries, MetricUpdate, MetricValue,
    MetricsTechMiddleware, ResponseData,
};
pub use service_context::service_context::{
    BackgroundTimer, Capabilities, ServiceContext, StartupStep,
};
pub use settings::{service_name, SettingsFeatures, SettingsInterface};
pub use transport::{IpAddress, ListenAddress, TransportBinding};
