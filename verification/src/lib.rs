//! The request-ingress layer of an API gateway.
//!
//! For every inbound request the gateway works out a request context
//! (who is calling, under which correlation id, from what kind of
//! device, over which protocol) and hands it on to downstream services
//! in a fixed set of headers. The process tells its orchestrator
//! whether it is alive and ready, and drains before it exits.
//!
//! - [`request_context`]: the context, how it is derived and forwarded
//! - [`device`]: device classification by user agent
//! - [`headers`], [`header_map`]: header names, and the boundary to the
//!   HTTP header types
//! - [`lifecycle`], [`health`]: the serving and draining states and the
//!   probes that report them
//! - [`metrics`]: metric names, labels and path normalization
//! - [`error`], [`config`]: error replies and settings
//! - [`text`], [`number`], [`system`]: helpers

pub mod config;
pub mod device;
pub mod error;
pub mod header_map;
pub mod headers;
pub mod health;
pub mod lifecycle;
pub mod metrics;
pub mod number;
pub mod request_context;
pub mod system;
pub mod text;

pub use crate::config::AppConfig;
pub use crate::device::DeviceType;
pub use crate::error::{AppError, ErrorResponse};
pub use crate::lifecycle::{Lifecycle, LifecycleState};
pub use crate::request_context::RequestContext;
