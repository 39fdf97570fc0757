//! The TCP hole-punching client's configuration and keepalive-session state
//! machine.
//!
//! The client keeps one HTTP keepalive connection alive from a reused local
//! port while sibling connections from the same port run STUN probes. The
//! first mapped address a session observes is the canonical one; a later,
//! different observation closes the session instead of superseding it.

use crate::client::MappedAddress;
use vstd::prelude::*;
use vstd::string::StringSliceAdditionalSpecFns;

verus! {

/// Seconds to wait before redialing, and for a keepalive response.
pub const RETRY_INTERVAL: u64 = 10;

/// Builds a TCP client: name, binding address, server pool, keepalive target
/// and the two intervals.
pub struct Builder {
    /// Name of the client.
    pub name: Vec<u8>,
    /// Requested binding address; the port may be zero.
    pub local_addr: Vec<u8>,
    /// STUN `server:port` pool, probed in round-robin order.
    pub stun_addrs: Vec<Vec<u8>>,
    /// Seconds between keepalive requests.
    pub interval: u64,
    /// The url fetched to keep a long-lived TCP connection up.
    pub keepalive_url: Vec<u8>,
    /// Seconds between STUN probes.
    pub stun_interval: u64,
}

impl Builder {
    /// A builder with the stock server pool and keepalive target, a 50 second
    /// keepalive interval and a 300 second probe interval.
    pub fn new(name: Vec<u8>, local_addr: Vec<u8>) -> (r: Builder)
        ensures
            r.name == name,
            r.local_addr == local_addr,
            r.interval == 50,
            r.stun_interval == 300,
            r.keepalive_url@ == "http://www.baidu.com".spec_bytes(),
            crate::bytes::views(r.stun_addrs@) =~~= seq!["turn.cloud-rtc.com:80".spec_bytes()],
    {
        proof {
            reveal_strlit("http://www.baidu.com");
            reveal_strlit("turn.cloud-rtc.com:80");
        }
        let mut stun_addrs: Vec<Vec<u8>> = Vec::new();
        stun_addrs.push(crate::bytes::lit("turn.cloud-rtc.com:80"));
        Builder {
            name,
            local_addr,
            stun_addrs,
            interval: 50,
            keepalive_url: crate::bytes::lit("http://www.baidu.com"),
            stun_interval: 300,
        }
    }

    /// Replaces the server pool; an empty list keeps the stock pool.
    pub fn stun_addrs(self, addrs: Vec<Vec<u8>>) -> (r: Builder)
        ensures
            r.stun_addrs@ == if addrs@.len() > 0 {
                addrs@
            } else {
                self.stun_addrs@
            },
            r.name == self.name,
            r.local_addr == self.local_addr,
            r.interval == self.interval,
            r.keepalive_url == self.keepalive_url,
            r.stun_interval == self.stun_interval,
    {
        if addrs.len() > 0 {
            Builder { stun_addrs: addrs, ..self }
        } else {
            self
        }
    }

    /// Sets the keepalive interval; zero keeps the default.
    pub fn interval(self, interval: u64) -> (r: Builder)
        ensures
            r.interval == if interval > 0 {
                interval
            } else {
                self.interval
            },
            r.name == self.name,
            r.local_addr == self.local_addr,
            r.stun_addrs == self.stun_addrs,
            r.keepalive_url == self.keepalive_url,
            r.stun_interval == self.stun_interval,
    {
        if interval > 0 {
            Builder { interval, ..self }
        } else {
            self
        }
    }

    /// Replaces the keepalive url.
    pub fn keepalive_url(self, url: Vec<u8>) -> (r: Builder)
        ensures
            r.keepalive_url == url,
            r.name == self.name,
            r.local_addr == self.local_addr,
            r.stun_addrs == self.stun_addrs,
            r.interval == self.interval,
            r.stun_interval == self.stun_interval,
    {
        Builder { keepalive_url: url, ..self }
    }

    /// Sets the probe interval; zero keeps the default.
    pub fn stun_interval(self, interval: u64) -> (r: Builder)
        ensures
            r.stun_interval == if interval > 0 {
                interval
            } else {
                self.stun_interval
            },
            r.name == self.name,
            r.local_addr == self.local_addr,
            r.stun_addrs == self.stun_addrs,
            r.interval == self.interval,
            r.keepalive_url == self.keepalive_url,
    {
        if interval > 0 {
            Builder { stun_interval: interval, ..self }
        } else {
            self
        }
    }
}

/// The HTTP request that keeps the connection alive: a `HEAD` for
/// `path_and_query` with a keep-alive `Host` header.
pub fn keepalive_payload(path_and_query: &Vec<u8>, host_header: &Vec<u8>) -> (r: Vec<u8>)
    ensures
        r@ == "HEAD ".spec_bytes() + path_and_query@ + " HTTP/1.1\r\nHost: ".spec_bytes()
            + host_header@ + "\r\nConnection: keep-alive\r\n\r\n".spec_bytes(),
{
    proof {
        reveal_strlit("HEAD ");
        reveal_strlit(" HTTP/1.1\r\nHost: ");
        reveal_strlit("\r\nConnection: keep-alive\r\n\r\n");
    }
    let mut r = crate::bytes::lit("HEAD ");
    crate::bytes::append_bytes(&mut r, path_and_query.as_slice());
    let mid = crate::bytes::lit(" HTTP/1.1\r\nHost: ");
    crate::bytes::append_bytes(&mut r, mid.as_slice());
    crate::bytes::append_bytes(&mut r, host_header.as_slice());
    let tail = crate::bytes::lit("\r\nConnection: keep-alive\r\n\r\n");
    crate::bytes::append_bytes(&mut r, tail.as_slice());
    proof {
        assert(r@ =~= "HEAD ".spec_bytes() + path_and_query@ + " HTTP/1.1\r\nHost: ".spec_bytes()
            + host_header@ + "\r\nConnection: keep-alive\r\n\r\n".spec_bytes());
    }
    r
}

/// `host` with `:port` appended when an explicit port is present; the form
/// the `Host` header takes.
pub fn host_header_text(host: &Vec<u8>, explicit_port: Option<u16>) -> (r: Vec<u8>)
    ensures
        r@ == match explicit_port {
            Some(p) => host@ + seq![crate::bytes::COLON] + crate::bytes::dec_digits(p as int),
            None => host@,
        },
{
    let mut r = crate::bytes::clone_bytes(host.as_slice());
    if let Some(p) = explicit_port {
        r.push(crate::bytes::COLON);
        let d = crate::bytes::u64_to_dec(p as u64);
        crate::bytes::append_bytes(&mut r, d.as_slice());
        proof {
            assert(r@ =~= host@ + seq![crate::bytes::COLON] + crate::bytes::dec_digits(p as int));
        }
    }
    r
}

/// `host:port` as dialed.
pub fn remote_addr_text(host: &Vec<u8>, port: u16) -> (r: Vec<u8>)
    ensures
        r@ == host@ + seq![crate::bytes::COLON] + crate::bytes::dec_digits(port as int),
{
    let mut r = crate::bytes::clone_bytes(host.as_slice());
    r.push(crate::bytes::COLON);
    let d = crate::bytes::u64_to_dec(port as u64);
    crate::bytes::append_bytes(&mut r, d.as_slice());
    proof {
        assert(r@ =~= host@ + seq![crate::bytes::COLON] + crate::bytes::dec_digits(port as int));
    }
    r
}

/// What one candidate address makes the session do.
#[derive(PartialEq, Eq, Structural, Clone, Copy, Debug)]
pub enum CandidateOutcome {
    /// First address of the session: publish it as canonical.
    Publish,
    /// Same address again: nothing to do.
    Ignore,
    /// A different address: the mapping churned, close the session.
    Close,
}

/// What one keepalive session remembers: the canonical address it published,
/// whether a response deadline is armed, and how many bytes arrived.
pub struct SessionState {
    /// The first mapped address observed in this session.
    pub canonical: Option<MappedAddress>,
    /// True from a keepalive send until a byte arrives; expiry closes the
    /// session.
    pub deadline_armed: bool,
    /// Bytes received on the keepalive connection in this session.
    pub total_read: u64,
}

/// The canonical address after a candidate arrives: the first observation
/// sticks, later ones never replace it.
pub open spec fn session_step(canonical: Option<MappedAddress>, addr: MappedAddress) -> Option<
    MappedAddress,
> {
    if canonical is None {
        Some(addr)
    } else {
        canonical
    }
}

impl SessionState {
    /// The state of a freshly dialed session.
    pub fn new() -> (r: SessionState)
        ensures
            r.canonical is None,
            !r.deadline_armed,
            r.total_read == 0,
    {
        SessionState { canonical: None, deadline_armed: false, total_read: 0 }
    }

    /// `n` bytes read from the keepalive connection. Zero bytes is the
    /// server closing the connection, which closes the session; data
    /// disarms the response deadline. The byte count saturates.
    pub fn on_read(&mut self, n: usize) -> (close: bool)
        ensures
            close == (n == 0),
            final(self).canonical == old(self).canonical,
            final(self).total_read == if old(self).total_read + n <= u64::MAX {
                old(self).total_read + n
            } else {
                u64::MAX as int
            },
            final(self).deadline_armed == if n > 0 {
                false
            } else {
                old(self).deadline_armed
            },
    {
        if n as u64 <= u64::MAX - self.total_read {
            self.total_read = self.total_read + (n as u64);
        } else {
            self.total_read = u64::MAX;
        }
        if n == 0 {
            true
        } else {
            self.deadline_armed = false;
            false
        }
    }

    /// The keepalive tick only fires while no response deadline is armed.
    pub fn keepalive_due(&self) -> (r: bool)
        ensures
            r == !self.deadline_armed,
    {
        !self.deadline_armed
    }

    /// A keepalive request went out: arm the response deadline.
    pub fn on_keepalive_sent(&mut self)
        ensures
            final(self).deadline_armed,
            final(self).canonical == old(self).canonical,
            final(self).total_read == old(self).total_read,
    {
        self.deadline_armed = true;
    }

    /// A candidate mapped address arrived from the prober. The first one is
    /// published and becomes canonical; the same one again is ignored; a
    /// different one closes the session.
    pub fn on_candidate(&mut self, addr: MappedAddress) -> (r: CandidateOutcome)
        ensures
            final(self).canonical == session_step(old(self).canonical, addr),
            final(self).deadline_armed == old(self).deadline_armed,
            final(self).total_read == old(self).total_read,
            r == (match old(self).canonical {
                None => CandidateOutcome::Publish,
                Some(c) => if c == addr {
                    CandidateOutcome::Ignore
                } else {
                    CandidateOutcome::Close
                },
            }),
    {
        match &self.canonical {
            None => {
                self.canonical = Some(addr);
                CandidateOutcome::Publish
            },
            Some(c) => {
                if *c == addr {
                    CandidateOutcome::Ignore
                } else {
                    CandidateOutcome::Close
                }
            },
        }
    }
}

/// The round-robin advance of the prober's server index after a completed
/// probe attempt.
pub fn next_server_index(i: usize, n_servers: usize) -> (r: usize)
    requires
        n_servers > 0,
        i < n_servers,
    ensures
        r == (i + 1) % (n_servers as int),
        r < n_servers,
{
    (i + 1) % n_servers
}

/// One observable event of a keepalive session, as the first-address law
/// sees it.
pub enum SessionEvent {
    /// Bytes arrived on the keepalive connection.
    Read(int),
    /// A keepalive request went out.
    KeepaliveSent,
    /// The prober reported a candidate address.
    Candidate(MappedAddress),
}

/// The canonical address after a run of session events: only the first
/// candidate sets it, and nothing else touches it.
pub open spec fn canonical_after(
    canonical: Option<MappedAddress>,
    evs: Seq<SessionEvent>,
) -> Option<MappedAddress>
    decreases evs.len(),
{
    if evs.len() == 0 {
        canonical
    } else {
        let prev = canonical_after(canonical, evs.drop_last());
        match evs.last() {
            SessionEvent::Candidate(a) => session_step(prev, a),
            _ => prev,
        }
    }
}

/// How many events of a run publish: the candidates that arrive while no
/// canonical address stands yet.
pub open spec fn event_publish_count(
    canonical: Option<MappedAddress>,
    evs: Seq<SessionEvent>,
) -> nat
    decreases evs.len(),
{
    if evs.len() == 0 {
        0
    } else {
        event_publish_count(canonical, evs.drop_last()) + (
        match evs.last() {
            SessionEvent::Candidate(_) => if canonical_after(canonical, evs.drop_last()) is None {
                1nat
            } else {
                0nat
            },
            _ => 0nat,
        })
    }
}

/// A session whose canonical address stands never publishes again, whatever
/// else happens on it.
pub proof fn lemma_session_events_after_publish(canonical: MappedAddress, evs: Seq<SessionEvent>)
    ensures
        canonical_after(Some(canonical), evs) == Some(canonical),
        event_publish_count(Some(canonical), evs) == 0,
    decreases evs.len(),
{
    if evs.len() > 0 {
        lemma_session_events_after_publish(canonical, evs.drop_last());
    }
}

/// The first-address rule over whole sessions: a keepalive session, whatever
/// its reads, keepalive sends and candidate reports, publishes at most one
/// address.
pub proof fn lemma_tcp_session_publishes_at_most_once(evs: Seq<SessionEvent>)
    ensures
        event_publish_count(None, evs) <= 1,
    decreases evs.len(),
{
    if evs.len() > 0 {
        lemma_tcp_session_publishes_at_most_once(evs.drop_last());
        match canonical_after(None, evs.drop_last()) {
            Some(_) => {
                lemma_event_count_bounded_by_canonical(evs.drop_last());
            },
            None => {
                lemma_event_count_zero_while_none(evs.drop_last());
            },
        }
    }
}

/// While no address has been published, nothing has been published.
proof fn lemma_event_count_zero_while_none(evs: Seq<SessionEvent>)
    requires
        canonical_after(None, evs) is None,
    ensures
        event_publish_count(None, evs) == 0,
    decreases evs.len(),
{
    if evs.len() > 0 {
        match evs.last() {
            SessionEvent::Candidate(_) => {
                assert(canonical_after(None, evs) is Some);
            },
            _ => {
                lemma_event_count_zero_while_none(evs.drop_last());
            },
        }
    }
}

/// Once an address has been published, exactly one has been.
proof fn lemma_event_count_bounded_by_canonical(evs: Seq<SessionEvent>)
    requires
        canonical_after(None, evs) is Some,
    ensures
        event_publish_count(None, evs) == 1,
    decreases evs.len(),
{
    if evs.len() == 0 {
    } else {
        match evs.last() {
            SessionEvent::Candidate(_) => {
                if canonical_after(None, evs.drop_last()) is None {
                    lemma_event_count_zero_while_none(evs.drop_last());
                } else {
                    lemma_event_count_bounded_by_canonical(evs.drop_last());
                }
            },
            _ => {
                lemma_event_count_bounded_by_canonical(evs.drop_last());
            },
        }
    }
}

} // verus!
