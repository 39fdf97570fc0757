//! UPnP lease bookkeeping: what a held port mapping is, when it is renewed,
//! and what remains after it is removed. The gateway traffic itself (SSDP
//! discovery and the IGD calls) happens outside; every decision those calls
//! depend on is a function here.

use crate::bytes::dec_digits;
use crate::client::Ipv4Octets;
use vstd::prelude::*;
use vstd::string::StringSliceAdditionalSpecFns;

verus! {

/// Seconds a port mapping on the gateway lives before it must be renewed.
pub const MAPPING_DURATION: u32 = 3600;

/// Renew a mapping once half of `MAPPING_DURATION` has elapsed, so the port
/// never goes unmapped.
pub const MAPPING_TIMEOUT: i64 = 1800;

/// The transport protocol of a mapping.
#[derive(PartialEq, Eq, Structural, Clone, Copy, Debug)]
pub enum Protocol {
    Tcp,
    Udp,
}

/// A port mapping held on the gateway. While held, `external_port` is not
/// zero; `remove` zeroes it and the mapping counts as released.
pub struct PortMap {
    /// TCP or UDP.
    pub protocol: Protocol,
    /// The address the gateway forwards external traffic to.
    pub forward_ip: Ipv4Octets,
    /// The port the gateway forwards external traffic to.
    pub forward_port: u16,
    /// The mapped external port on the gateway.
    pub external_port: u16,
    /// Lease duration in seconds; zero when the gateway only grants
    /// permanent leases.
    pub lease_seconds: u32,
    /// Unix time the mapping was last sent to the gateway.
    pub last_renewed: i64,
}

/// How the gateway answered an add-any-port request, reduced to what the
/// retry decision needs.
#[derive(PartialEq, Eq, Structural, Clone, Copy, Debug)]
pub enum AddPortOutcome {
    /// The gateway granted this external port.
    Granted(u16),
    /// The gateway only supports permanent leases.
    PermanentOnly,
    /// Any other failure.
    Failed,
}

/// A lease is due for renewal only when it is a timed lease and at least
/// half its duration has elapsed.
pub open spec fn spec_needs_renewal(pm: PortMap, now: i64) -> bool {
    pm.lease_seconds != 0 && now - pm.last_renewed >= MAPPING_TIMEOUT
}

impl PortMap {
    /// Renewal is a no-op exactly when the lease is permanent or less than
    /// half of `MAPPING_DURATION` has passed since the last renewal.
    pub fn needs_renewal(&self, now: i64) -> (r: bool)
        requires
            0 <= self.last_renewed,
            0 <= now,
        ensures
            r == spec_needs_renewal(*self, now),
    {
        self.lease_seconds != 0 && now - self.last_renewed >= MAPPING_TIMEOUT
    }

    /// Records that the mapping was just re-sent to the gateway.
    pub fn mark_renewed(&mut self, now: i64)
        ensures
            *final(self) == (PortMap { last_renewed: now, ..*old(self) }),
    {
        self.last_renewed = now;
    }

    /// Records that the mapping was deleted on the gateway: the external
    /// port and the timestamp are zeroed and the lease counts as released.
    /// A second call changes nothing.
    pub fn mark_removed(&mut self)
        ensures
            *final(self) == (PortMap { external_port: 0, last_renewed: 0, ..*old(self) }),
    {
        self.external_port = 0;
        self.last_renewed = 0;
    }

    /// The local binding address handed to the mapper: `0.0.0.0` with the
    /// external port, since NAT gateways usually keep the source port.
    pub fn local_addr(&self) -> (r: Vec<u8>)
        ensures
            r@ == "0.0.0.0:".spec_bytes() + dec_digits(self.external_port as int),
    {
        proof {
            reveal_strlit("0.0.0.0:");
        }
        let mut r = crate::bytes::lit("0.0.0.0:");
        let p = crate::bytes::u64_to_dec(self.external_port as u64);
        crate::bytes::append_bytes(&mut r, p.as_slice());
        r
    }
}

/// The address the gateway should forward to: an unspecified request
/// address means this machine's own address on the local network.
pub fn resolve_forward_ip(requested: Ipv4Octets, local: Ipv4Octets) -> (r: Ipv4Octets)
    ensures
        r == if requested == (Ipv4Octets { a: 0, b: 0, c: 0, d: 0 }) {
            local
        } else {
            requested
        },
{
    if requested == (Ipv4Octets { a: 0, b: 0, c: 0, d: 0 }) {
        local
    } else {
        requested
    }
}

/// After the first add-any-port attempt, retry with a permanent lease
/// exactly when the gateway rejected timed leases.
pub fn retry_with_permanent_lease(outcome: &AddPortOutcome) -> (r: bool)
    ensures
        r == (*outcome == AddPortOutcome::PermanentOnly),
{
    match outcome {
        AddPortOutcome::PermanentOnly => true,
        _ => false,
    }
}

/// The lease record for a mapping the gateway granted. A held lease always
/// names a non-zero external port; a grant of port zero is not a lease.
pub fn make_lease(
    protocol: Protocol,
    forward_ip: Ipv4Octets,
    forward_port: u16,
    external_port: u16,
    lease_seconds: u32,
    now: i64,
) -> (r: PortMap)
    requires
        external_port != 0,
    ensures
        r == (PortMap { protocol, forward_ip, forward_port, external_port, lease_seconds,
        last_renewed: now }),
        r.external_port != 0,
{
    PortMap { protocol, forward_ip, forward_port, external_port, lease_seconds, last_renewed: now }
}

/// The description a mapping carries on the gateway: the crate's name, with
/// the machine's hostname when one is known.
pub fn description_with(hostname: Option<Vec<u8>>) -> (r: Vec<u8>)
    ensures
        r@ == match hostname {
            Some(h) => "NAT2 - ".spec_bytes() + h@,
            None => "NAT2".spec_bytes(),
        },
{
    proof {
        reveal_strlit("NAT2 - ");
        reveal_strlit("NAT2");
    }
    match hostname {
        Some(h) => {
            let mut r = crate::bytes::lit("NAT2 - ");
            crate::bytes::append_bytes(&mut r, h.as_slice());
            r
        },
        None => crate::bytes::lit("NAT2"),
    }
}

/// A lease granted after the permanent-only fallback never renews: with
/// `lease_seconds` zero, `needs_renewal` is false at every time.
pub proof fn lemma_permanent_lease_never_renews(
    protocol: Protocol,
    forward_ip: Ipv4Octets,
    forward_port: u16,
    external_port: u16,
    granted_at: i64,
    now: i64,
)
    ensures
        !spec_needs_renewal(
            PortMap {
                protocol,
                forward_ip,
                forward_port,
                external_port,
                lease_seconds: 0,
                last_renewed: granted_at,
            },
            now,
        ),
{
}

} // verus!
