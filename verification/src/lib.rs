//! Keeps NAT hole-punched public endpoints alive for locally bound TCP and
//! UDP sockets and publishes each discovered public address to configured
//! watchers (DNS providers, HTTP endpoints, scripts).
//!
//! This crate holds the verified core: the mapper state machines, the
//! per-mapping supervision rules (deduplication and failure resume), the
//! UPnP lease bookkeeping, and the request-building logic of the watchers.
//! Sockets, timers and HTTP transport live outside, in the binary that
//! drives these functions.

pub mod bytes;
pub mod client;
pub mod config;
pub mod mapper;
pub mod upnp;
pub mod urls;
pub mod watcher;
