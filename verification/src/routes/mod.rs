//! The request-level decisions of the HTTP API, one module per resource.

pub mod capabilities;
pub mod config;
pub mod demo;
pub mod demo_admission;
pub mod demo_start;
pub mod history;
pub mod opc;
pub mod runs;
pub mod session;
pub mod stream;
pub mod templates;
