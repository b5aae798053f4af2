//! The verified core of the bhtune HTTP server: request admission for the public Demo,
//! origin and header policy, run and accepted-start bookkeeping, the live event stream's
//! state machine, and the mapping of every failure onto an HTTP answer.

pub mod active_run;
pub mod error;
pub mod policy;
pub mod routes;
pub mod run;
pub mod security;
pub mod service;
pub mod spa;
pub mod state;
pub mod text;
