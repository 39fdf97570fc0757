//! The UDP hole-punching client's configuration and probe state machine.
//!
//! The client owns one UDP socket and pumps STUN Binding Requests on an
//! interval, rotating through its server pool; replies are correlated by
//! transaction ID. The socket, timer and task live outside; every decision
//! the loop takes is a function here.

use crate::bytes::views;
use crate::client::{stun_mapped_of, stun_tid_of, MappedAddress};
use vstd::prelude::*;
use vstd::string::StringSliceAdditionalSpecFns;

verus! {

/// Builds a UDP client: name, binding address, server pool and interval.
pub struct Builder {
    /// Name of the client.
    pub name: Vec<u8>,
    /// Requested binding address; the port may be zero.
    pub local_addr: Vec<u8>,
    /// STUN `server:port` pool, probed in round-robin order.
    pub stun_addrs: Vec<Vec<u8>>,
    /// Seconds between Binding Requests.
    pub interval: u64,
}

impl Builder {
    /// A builder with the stock server pool and a 20 second interval.
    pub fn new(name: Vec<u8>, local_addr: Vec<u8>) -> (r: Builder)
        ensures
            r.name == name,
            r.local_addr == local_addr,
            r.interval == 20,
            views(r.stun_addrs@) =~~= seq![
                "stun.chat.bilibili.com:3478".spec_bytes(),
                "stun.douyucdn.cn:18000".spec_bytes(),
                "stun.hitv.com:3478".spec_bytes(),
                "stun.miwifi.com:3478".spec_bytes(),
            ],
    {
        proof {
            reveal_strlit("stun.chat.bilibili.com:3478");
            reveal_strlit("stun.douyucdn.cn:18000");
            reveal_strlit("stun.hitv.com:3478");
            reveal_strlit("stun.miwifi.com:3478");
        }
        let mut stun_addrs: Vec<Vec<u8>> = Vec::new();
        stun_addrs.push(crate::bytes::lit("stun.chat.bilibili.com:3478"));
        stun_addrs.push(crate::bytes::lit("stun.douyucdn.cn:18000"));
        stun_addrs.push(crate::bytes::lit("stun.hitv.com:3478"));
        stun_addrs.push(crate::bytes::lit("stun.miwifi.com:3478"));
        Builder { name, local_addr, stun_addrs, interval: 20 }
    }

    /// Replaces the server pool; an empty list keeps the stock pool.
    pub fn stun_addrs(self, addrs: Vec<Vec<u8>>) -> (r: Builder)
        ensures
            r.stun_addrs@ == if addrs@.len() > 0 {
                addrs@
            } else {
                self.stun_addrs@
            },
            r.name == self.name,
            r.local_addr == self.local_addr,
            r.interval == self.interval,
    {
        if addrs.len() > 0 {
            Builder { stun_addrs: addrs, ..self }
        } else {
            self
        }
    }

    /// Sets the probe interval; zero keeps the default.
    pub fn interval(self, interval: u64) -> (r: Builder)
        ensures
            r.interval == if interval > 0 {
                interval
            } else {
                self.interval
            },
            r.name == self.name,
            r.local_addr == self.local_addr,
            r.stun_addrs == self.stun_addrs,
    {
        if interval > 0 {
            Builder { interval, ..self }
        } else {
            self
        }
    }
}

/// What the probe loop remembers between events: the transaction ID still
/// awaiting an answer, the server the next probe goes to, and whether the
/// very first tick is still ahead.
pub struct ProbeState {
    /// Transaction ID of the probe not yet answered.
    pub outstanding: Option<Vec<u8>>,
    /// Index of the current server in the pool.
    pub server_index: usize,
    /// True until the first tick fires.
    pub first_tick: bool,
}

/// The mapped address a datagram makes the client emit: only a datagram that
/// decodes as a STUN message carrying the outstanding transaction ID emits,
/// and it emits the XOR-MAPPED-ADDRESS it carries.
pub open spec fn datagram_emission(outstanding: Option<Seq<u8>>, buf: Seq<u8>) -> Option<
    MappedAddress,
> {
    if outstanding is Some && stun_tid_of(buf) == Some(outstanding->0) {
        stun_mapped_of(buf)
    } else {
        None
    }
}

impl ProbeState {
    /// The outstanding transaction ID as a byte sequence.
    pub open spec fn outstanding_view(self) -> Option<Seq<u8>> {
        match self.outstanding {
            Some(v) => Some(v@),
            None => None,
        }
    }

    /// The state before any tick: no probe outstanding, first server next.
    pub fn new() -> (r: ProbeState)
        ensures
            r.outstanding is None,
            r.server_index == 0,
            r.first_tick,
    {
        ProbeState { outstanding: None, server_index: 0, first_tick: true }
    }

    /// One timer tick: the server index advances round-robin on every tick
    /// but the first, whether or not the last probe was answered. An
    /// unanswered probe is reported (`true`) so the caller can log it; it
    /// stays outstanding.
    pub fn on_tick(&mut self, n_servers: usize) -> (timed_out: bool)
        requires
            n_servers > 0,
            old(self).server_index < n_servers,
        ensures
            timed_out == (old(self).outstanding is Some),
            final(self).outstanding == old(self).outstanding,
            !final(self).first_tick,
            final(self).server_index == if old(self).first_tick {
                old(self).server_index as int
            } else {
                (old(self).server_index + 1) % (n_servers as int)
            },
            final(self).server_index < n_servers,
    {
        if self.first_tick {
            self.first_tick = false;
        } else {
            self.server_index = (self.server_index + 1) % n_servers;
        }
        self.outstanding.is_some()
    }

    /// Records the transaction ID of a probe that was just sent.
    pub fn record_sent(&mut self, tid: Vec<u8>)
        ensures
            final(self).outstanding == Some(tid),
            final(self).server_index == old(self).server_index,
            final(self).first_tick == old(self).first_tick,
    {
        self.outstanding = Some(tid);
    }

    /// One incoming datagram: emits exactly `datagram_emission`, and the
    /// outstanding slot is cleared exactly when the datagram decodes and its
    /// transaction ID matches.
    pub fn on_datagram(&mut self, buf: &Vec<u8>) -> (r: Option<MappedAddress>)
        ensures
            r == datagram_emission(old(self).outstanding_view(), buf@),
            final(self).outstanding == if old(self).outstanding is Some && stun_tid_of(buf@)
                == Some(old(self).outstanding->0@) {
                None::<Vec<u8>>
            } else {
                old(self).outstanding
            },
            final(self).server_index == old(self).server_index,
            final(self).first_tick == old(self).first_tick,
    {
        let tid = match crate::client::decode_transaction_id(buf) {
            Some(t) => t,
            None => {
                return None;
            },
        };
        let matched = match &self.outstanding {
            Some(o) => crate::bytes::bytes_eq(tid.as_slice(), o.as_slice()),
            None => {
                return None;
            },
        };
        if !matched {
            return None;
        }
        self.outstanding = None;
        crate::client::decode_mapped_address(buf)
    }
}

/// One observable event of the probe loop, as the correlation law sees it:
/// a probe going out with its transaction ID, or a datagram coming in.
pub enum ProbeEvent {
    /// A probe with this transaction ID was sent.
    Sent(Seq<u8>),
    /// A datagram with these bytes arrived.
    Incoming(Seq<u8>),
}

/// The outstanding transaction ID after a run of events: each probe sent
/// replaces it, and a datagram that decodes to it consumes it.
pub open spec fn outstanding_after(evs: Seq<ProbeEvent>) -> Option<Seq<u8>>
    decreases evs.len(),
{
    if evs.len() == 0 {
        None
    } else {
        let prev = outstanding_after(evs.drop_last());
        match evs.last() {
            ProbeEvent::Sent(t) => Some(t),
            ProbeEvent::Incoming(b) => if prev is Some && stun_tid_of(b) == Some(prev->0) {
                None
            } else {
                prev
            },
        }
    }
}

/// `t` was sent at position `j` and no probe went out after it.
pub open spec fn most_recent_sent_at(evs: Seq<ProbeEvent>, t: Seq<u8>, j: int) -> bool {
    &&& 0 <= j < evs.len()
    &&& evs[j] == ProbeEvent::Sent(t)
    &&& forall|m: int| j < m < evs.len() ==> !(#[trigger] evs[m] is Sent)
}

/// Whenever a probe is outstanding, it is the most recently sent one.
pub proof fn lemma_outstanding_is_most_recent(evs: Seq<ProbeEvent>)
    requires
        outstanding_after(evs) is Some,
    ensures
        exists|j: int| most_recent_sent_at(evs, outstanding_after(evs)->0, j),
    decreases evs.len(),
{
    let t = outstanding_after(evs)->0;
    match evs.last() {
        ProbeEvent::Sent(sent) => {
            assert(most_recent_sent_at(evs, t, evs.len() - 1));
        },
        ProbeEvent::Incoming(b) => {
            let prev = evs.drop_last();
            lemma_outstanding_is_most_recent(prev);
            let j = choose|j: int| most_recent_sent_at(prev, outstanding_after(prev)->0, j);
            assert(evs[j] == prev[j]);
            assert forall|m: int| j < m < evs.len() implies !(#[trigger] evs[m] is Sent) by {
                if m < evs.len() - 1 {
                    assert(evs[m] == prev[m]);
                }
            }
            assert(most_recent_sent_at(evs, t, j));
        },
    }
}

/// The correlation law over whole runs: when the datagram at step `k` makes
/// the client emit a mapped address, some probe was sent before `k`, none
/// was sent after it, it had not been answered, and the datagram carries
/// exactly its transaction ID. A run in which no such probe stands emits
/// nothing at `k`.
pub proof fn lemma_udp_correlation_trace(evs: Seq<ProbeEvent>, k: int, buf: Seq<u8>)
    requires
        0 <= k < evs.len(),
        evs[k] == ProbeEvent::Incoming(buf),
        datagram_emission(outstanding_after(evs.take(k)), buf) is Some,
    ensures
        stun_tid_of(buf) == Some(outstanding_after(evs.take(k))->0),
        exists|j: int| most_recent_sent_at(evs.take(k), outstanding_after(evs.take(k))->0, j),
{
    lemma_outstanding_is_most_recent(evs.take(k));
}

/// A datagram emits a mapped address only when a probe is outstanding and
/// the datagram's transaction ID equals that probe's; one with a missing or
/// different transaction ID never produces an emission.
pub proof fn lemma_udp_correlation(outstanding: Option<Seq<u8>>, buf: Seq<u8>)
    ensures
        datagram_emission(outstanding, buf) is Some ==> outstanding is Some && stun_tid_of(buf)
            == Some(outstanding->0),
        outstanding is None ==> datagram_emission(outstanding, buf) is None,
        stun_tid_of(buf) is None ==> datagram_emission(outstanding, buf) is None,
        (outstanding is Some && stun_tid_of(buf) is Some && stun_tid_of(buf)->0 != outstanding->0)
            ==> datagram_emission(outstanding, buf) is None,
{
}

} // verus!
