//! The server's operating mode and the public Demo's admission policy.

use vstd::prelude::*;

verus! {

/// Which surface the server exposes: the full engineering API, or the restricted,
/// simulator-only public Demo.
#[derive(Debug, Clone, Copy, PartialEq, Eq, Structural)]
pub enum ServerMode {
    Full,
    Demo,
}

/// The numeric limits that govern the public Demo: global and per-visitor concurrency,
/// accepted-start windows, retention, and request budgets.
#[derive(Debug, Clone, Copy, PartialEq, Eq, Structural)]
pub struct DemoPolicy {
    pub max_active_runs_global: u32,
    pub max_active_runs_per_visitor: u32,
    pub max_runs_per_session: u32,
    pub accepted_starts_per_token: u32,
    pub accepted_starts_per_client_ip: u32,
    pub accepted_start_window_secs: u64,
    pub retained_runs_per_visitor: u32,
    pub max_tune_run_rows_global: u32,
    pub max_json_body_bytes: u64,
    pub max_sse_per_visitor: u32,
    pub max_sse_global: u32,
    pub sse_lifetime_secs: u64,
    pub ordinary_request_concurrency: u32,
    pub ordinary_request_timeout_secs: u64,
    pub session_ttl_secs: u64,
    pub run_timeout_secs: u64,
    pub poll_interval_ms: u64,
    pub cleanup_interval_secs: u64,
}

} // verus!
