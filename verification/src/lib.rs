//! Verified core of the SignalDock agent runtime: message admission and
//! de-duplication, delivery bookkeeping, the server-sent-event line protocol,
//! provider selection and the health report.

pub mod adapters;
pub mod api;
pub mod cli;
pub mod config;
pub mod health;
pub mod laws;
pub mod message;
pub mod payload;
pub mod providers;
pub mod receiver;
pub mod seen;
pub mod sse;
pub mod text;
pub mod wire;
