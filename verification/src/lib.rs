//! Verified core of a multi-mode network reconnaissance engine.
//!
//! The crate holds the logic of the engine: probe-outcome classification,
//! result aggregation (port scan, host discovery, ping statistics,
//! traceroute, domain enumeration), signature-database lookups (OUI vendor,
//! TTL fingerprint, service banner), configuration validation, the
//! concurrency admission gate, and the progress-event vocabulary. The
//! surrounding I/O (sockets, channels, terminals, files) lives outside and
//! hands this crate plain values.

pub mod config;
pub mod events;
pub mod db;
pub mod domain;
pub mod host;
pub mod limiter;
pub mod ping;
pub mod port;
pub mod service;
pub mod trace;
