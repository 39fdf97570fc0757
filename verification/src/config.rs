//! Configuration values, carried as plain bytes and numbers. Reading the
//! configuration file and decoding JSON happen outside; these are the shapes
//! the verified core works with.

use vstd::prelude::*;

verus! {

/// Configuration for the DNSPod provider.
pub struct DnsPod {
    /// Similar to a username.
    pub secret_id: Vec<u8>,
    /// Similar to a password.
    pub secret_key: Vec<u8>,
}

/// Configuration for the AliDNS provider.
pub struct AliDNS {
    /// The request url; it may vary by region.
    pub url: Option<Vec<u8>>,
    /// Similar to a username.
    pub secret_id: Vec<u8>,
    /// Similar to a password.
    pub secret_key: Vec<u8>,
}

/// Configuration for the Cloudflare provider.
pub struct Cf {
    /// API token.
    pub token: Vec<u8>,
}

/// Configuration for an HTTP endpoint watcher.
pub struct Http {
    /// Request url; `{ip}` and `{port}` are replaced before sending.
    pub url: Vec<u8>,
    /// Request method.
    pub method: Vec<u8>,
    /// Request body; `{ip}` and `{port}` are replaced before sending.
    pub body: Option<Vec<u8>>,
    /// Request headers.
    pub headers: Vec<(Vec<u8>, Vec<u8>)>,
}

/// Configuration for a script watcher.
pub struct Script {
    /// Path to the executable.
    pub path: Vec<u8>,
    /// Arguments to pass; a non-empty metadata value is appended as the
    /// last argument after substitution.
    pub args: Vec<Vec<u8>>,
}

/// Global options of TCP mappings.
pub struct Tcp {
    /// STUN `server:port` pool; the servers must speak STUN over TCP.
    pub stun: Option<Vec<Vec<u8>>>,
    /// Connectivity-check url fetched periodically over one long-lived
    /// connection; HTTP only.
    pub keepalive: Option<Vec<u8>>,
    /// Seconds between keepalive requests.
    pub interval: Option<u64>,
    /// Seconds between Binding Requests.
    pub stun_interval: Option<u64>,
}

/// Global options of UDP mappings.
pub struct Udp {
    /// STUN `server:port` pool.
    pub stun: Option<Vec<Vec<u8>>>,
    /// Seconds between Binding Requests.
    pub interval: Option<u64>,
}

/// Metadata a mapping hands to one of its watchers.
pub struct Metadata {
    /// Name of the watcher instance this entry is for.
    pub name: Vec<u8>,
    /// Value template; `{ip}` and `{port}` are replaced at delivery.
    pub value: Vec<u8>,
    /// Domain name, for DNS providers.
    pub domain: Option<Vec<u8>>,
    /// Record type, for DNS providers.
    pub kind: Option<Vec<u8>>,
    /// Record priority; required for the SVCB, HTTPS and URI record types.
    pub priority: Option<u16>,
    /// DNS record id; set, it disables automatic record creation.
    pub rid: Option<Vec<u8>>,
    /// TTL of created or updated DNS records.
    pub ttl: Option<u32>,
    /// Serve the record through the provider's proxy; Cloudflare only.
    pub proxied: Option<bool>,
}

} // verus!
