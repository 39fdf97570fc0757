//! The per-mapping supervisor: it consumes the mapped addresses a client
//! emits, renews the mapping's UPnP lease, deduplicates addresses against
//! the last published one, and drives the watcher fan-out with a resume
//! cursor so a partial failure replays only the tail on the next update.
//!
//! The channels, timers and watcher calls run outside; each event is handed
//! to [`SupervisorState::on_event`] and the returned actions are performed.

use crate::client::MappedAddress;
use vstd::prelude::*;

verus! {

/// One event a supervisor reacts to.
pub enum SupervisorEvent {
    /// The mapping's client emitted a mapped address.
    Address(MappedAddress),
    /// The shutdown broadcast arrived.
    Shutdown,
}

/// What the caller must do after handing an event to the supervisor.
pub struct SupervisorActions {
    /// Attempt a UPnP lease renewal; its failure is logged and ignored.
    pub renew_lease: bool,
    /// Remove the UPnP lease, best-effort.
    pub remove_lease: bool,
    /// Walk the watcher list starting at this index, publishing the new
    /// address; `None` walks nothing.
    pub publish_start: Option<usize>,
    /// Close the mapping's client and leave the event loop.
    pub stop: bool,
}

/// What a supervisor remembers between events.
pub struct SupervisorState {
    /// Text of the last mapped address received.
    pub last_public: Option<Vec<u8>>,
    /// Index of the first watcher that failed on the previous walk; the
    /// next walk resumes here when the address is unchanged.
    pub failed_cursor: Option<usize>,
    /// True once shutdown has been seen; no event does anything after it.
    pub stopped: bool,
}

/// A new address differs from the last published one; a first address
/// always counts as changed.
pub open spec fn spec_changed(last: Option<Seq<u8>>, addr_text: Seq<u8>) -> bool {
    match last {
        None => true,
        Some(p) => p != addr_text,
    }
}

/// Where the watcher walk starts: from the top on a changed address, at the
/// resume cursor after a failure, and nowhere otherwise.
pub open spec fn spec_start(changed: bool, cursor: Option<usize>) -> Option<usize> {
    if changed {
        Some(0usize)
    } else {
        cursor
    }
}

impl SupervisorState {
    /// The text of the last received address.
    pub open spec fn last_public_view(self) -> Option<Seq<u8>> {
        match self.last_public {
            Some(v) => Some(v@),
            None => None,
        }
    }

    /// A fresh supervisor: nothing published, no failure to resume from.
    pub fn new() -> (r: SupervisorState)
        ensures
            r.last_public is None,
            r.failed_cursor is None,
            !r.stopped,
    {
        SupervisorState { last_public: None, failed_cursor: None, stopped: false }
    }

    /// Handles one event.
    ///
    /// An address event renews the lease (when one is held), remembers the
    /// address text, and publishes exactly when the text changed or a
    /// failure cursor demands a resume — from index zero when changed, from
    /// the cursor otherwise. A shutdown event removes the lease (when one
    /// is held) and stops; after it, every event is inert.
    pub fn on_event(&mut self, event: &SupervisorEvent, has_lease: bool) -> (r: SupervisorActions)
        ensures
            old(self).stopped ==> *final(self) == *old(self) && !r.renew_lease && !r.remove_lease
                && r.publish_start is None && r.stop,
            !old(self).stopped && *event is Shutdown ==> final(self).stopped
                && final(self).last_public == old(self).last_public
                && final(self).failed_cursor == old(self).failed_cursor && !r.renew_lease
                && r.remove_lease == has_lease && r.publish_start is None && r.stop,
            !old(self).stopped ==> (*event matches SupervisorEvent::Address(a) ==> {
                &&& !final(self).stopped
                &&& r.renew_lease == has_lease
                &&& !r.remove_lease
                &&& !r.stop
                &&& final(self).last_public matches Some(v) && v@ == a.text()
                &&& final(self).failed_cursor == old(self).failed_cursor
                &&& r.publish_start == spec_start(
                    spec_changed(old(self).last_public_view(), a.text()),
                    old(self).failed_cursor,
                )
            }),
    {
        if self.stopped {
            return SupervisorActions {
                renew_lease: false,
                remove_lease: false,
                publish_start: None,
                stop: true,
            };
        }
        match event {
            SupervisorEvent::Shutdown => {
                self.stopped = true;
                SupervisorActions {
                    renew_lease: false,
                    remove_lease: has_lease,
                    publish_start: None,
                    stop: true,
                }
            },
            SupervisorEvent::Address(a) => {
                let text = a.to_text();
                let changed = match &self.last_public {
                    None => true,
                    Some(p) => !crate::bytes::bytes_eq(p.as_slice(), text.as_slice()),
                };
                self.last_public = Some(text);
                let publish_start = if changed {
                    Some(0usize)
                } else {
                    self.failed_cursor
                };
                SupervisorActions {
                    renew_lease: has_lease,
                    remove_lease: false,
                    publish_start,
                    stop: false,
                }
            },
        }
    }

    /// Records how a watcher walk that started at `start` went: the index of
    /// the first failure, or `None` when every watcher succeeded.
    pub fn record_walk(&mut self, failure: Option<usize>)
        ensures
            final(self).failed_cursor == failure,
            final(self).last_public == old(self).last_public,
            final(self).stopped == old(self).stopped,
    {
        self.failed_cursor = failure;
    }
}

/// The UPnP feature is on unless the configuration turns it off.
pub fn global_upnp(setting: Option<bool>) -> (r: bool)
    ensures
        r == (setting != Some(false)),
{
    match setting {
        Some(false) => false,
        _ => true,
    }
}

/// A mapping takes a UPnP lease when its scheme asks for one or the global
/// switch is on.
pub fn wants_upnp(scheme_upnp: bool, global: bool) -> (r: bool)
    ensures
        r == (scheme_upnp || global),
{
    scheme_upnp || global
}

/// The local binding address a mapping url names: its host and explicit
/// port. `None` exactly when the url does not parse, or names no host or no
/// port.
pub fn mapping_local_addr(url: &Vec<u8>) -> (r: Option<Vec<u8>>)
    ensures
        r is Some <==> (crate::urls::url_parts_of(url@) matches Some(p) && p.port is Some),
        r matches Some(a) ==> (crate::urls::url_parts_of(url@) matches Some(p) && a@ == p.host
            + seq![crate::bytes::COLON] + crate::bytes::dec_digits(p.port->0 as int)),
{
    let parts = match crate::urls::parse_url(url) {
        Some(p) => p,
        None => {
            return None;
        },
    };
    let port = match parts.port {
        Some(p) => p,
        None => {
            return None;
        },
    };
    Some(crate::client::tcp::remote_addr_text(&parts.host, port))
}

/// The dedup law: an address event leads to a watcher walk exactly when the
/// address text differs from the last published one or a failure cursor is
/// set; nothing is walked otherwise.
pub proof fn lemma_dedup_law(last: Option<Seq<u8>>, cursor: Option<usize>, addr_text: Seq<u8>)
    ensures
        spec_start(spec_changed(last, addr_text), cursor) is Some <==> (spec_changed(
            last,
            addr_text,
        ) || cursor is Some),
{
}

/// The resume law: after watcher `j` failed, an unchanged address resumes
/// the walk exactly at `j`, and a changed address restarts it at zero.
pub proof fn lemma_resume_law(published: Seq<u8>, addr_text: Seq<u8>, j: usize)
    ensures
        addr_text == published ==> spec_start(spec_changed(Some(published), addr_text), Some(j))
            == Some(j),
        addr_text != published ==> spec_start(spec_changed(Some(published), addr_text), Some(j))
            == Some(0usize),
{
}

/// Whether the supervisor has seen a shutdown among the first `k` events.
pub open spec fn stopped_after(events: Seq<SupervisorEvent>, k: int) -> bool
    decreases k,
{
    if k <= 0 {
        false
    } else {
        stopped_after(events, k - 1) || events[k - 1] is Shutdown
    }
}

/// Once stopped, stopped for good.
pub proof fn lemma_stopped_monotone(events: Seq<SupervisorEvent>, k: int, m: int)
    requires
        stopped_after(events, k),
        k <= m,
    ensures
        stopped_after(events, m),
    decreases m - k,
{
    if k < m {
        lemma_stopped_monotone(events, k, m - 1);
    }
}

/// The shutdown law: after a shutdown event, the supervisor is stopped, so
/// every later event is inert — no watcher walk and no lease touch follow.
pub proof fn lemma_shutdown_law(events: Seq<SupervisorEvent>, k: int, m: int)
    requires
        0 <= k < m,
        events[k] is Shutdown,
    ensures
        stopped_after(events, m),
{
    assert(stopped_after(events, k + 1));
    lemma_stopped_monotone(events, k + 1, m);
}

} // verus!
