//! The lifecycle of an application.

pub mod service_context;
