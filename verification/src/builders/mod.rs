//! Builders that collect registrations before the servers start.

pub mod grpc_server_builder;
pub mod http_server_builder;
pub mod http_server_config;
pub mod unix_socket_enabled;
