//! A composable service/layer framework for request–response pipelines,
//! with a client-side encoder for the PROXY protocol (v1 text, v2 binary).
pub mod context;
pub mod haproxy;
pub mod middleware;
pub mod net;
pub mod proxy_v1;
pub mod proxy_v2;
pub mod server;
pub mod service;
pub mod ua;
