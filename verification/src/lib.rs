//! A request-translation and credential-failover gateway core.
//!
//! The library verifies the logic of a chat-completion proxy: it checks the
//! caller's bearer token, translates an inbound request into the upstream
//! shape, scans a snapshot of stored upstream credentials in order until one
//! attempt succeeds, and plans how the upstream response is relayed back.
//! All network and storage traffic stays outside; the library works on plain
//! values handed in by the surrounding application.

pub mod auth;
pub mod dispatch;
pub mod errors;
pub mod gateway;
pub mod models;
pub mod relay;
pub mod translate;
pub mod utils;
