//! The mapper state machines, the supervisor, the UPnP lease rules and the
//! mapping url rules, driven through concrete scenarios.

use nat2::client::tcp::{keepalive_payload, CandidateOutcome, SessionState};
use nat2::client::udp::ProbeState;
use nat2::client::{make_binding_request, parse_stun_tcp, Ipv4Octets, MappedAddress};
use nat2::mapper::{
    global_upnp, mapping_local_addr, wants_upnp, SupervisorEvent, SupervisorState,
};
use nat2::upnp::{
    make_lease, retry_with_permanent_lease, AddPortOutcome, Protocol, MAPPING_TIMEOUT,
};
use nat2::urls::{classify_scheme, upnp_enabled};
use stun::message::Setter;

fn mb(s: &str) -> Vec<u8> {
    s.as_bytes().to_vec()
}

fn maddr(a: u8, b: u8, c: u8, d: u8, port: u16) -> MappedAddress {
    MappedAddress { ip: Ipv4Octets { a, b, c, d }, port }
}

/// A STUN message carrying the given transaction ID and an
/// XOR-MAPPED-ADDRESS, as a server's reply would.
fn stun_reply(tid: &[u8], ip: &str, port: u16) -> Vec<u8> {
    let mut arr = [0u8; 12];
    arr.copy_from_slice(tid);
    let mut msg = stun::message::Message::new();
    msg.build(&[
        Box::new(stun::agent::TransactionId(arr)),
        Box::new(stun::message::BINDING_SUCCESS),
    ])
    .unwrap();
    let xor = stun::xoraddr::XorMappedAddress { ip: ip.parse().unwrap(), port };
    xor.add_to(&mut msg).unwrap();
    msg.encode();
    msg.raw
}

#[test]
fn udp_first_tick_does_not_rotate() {
    let mut st = ProbeState::new();
    assert!(st.first_tick);
    assert!(!st.on_tick(2));
    assert_eq!(st.server_index, 0);
    assert!(!st.on_tick(2));
    assert_eq!(st.server_index, 1);
    assert!(!st.on_tick(2));
    assert_eq!(st.server_index, 0);
}

#[test]
fn udp_tick_reports_unanswered_probe() {
    let mut st = ProbeState::new();
    assert!(!st.on_tick(2));
    st.record_sent(vec![7u8; 12]);
    assert!(st.on_tick(2));
    assert_eq!(st.server_index, 1);
    assert!(st.outstanding.is_some());
}

#[test]
fn udp_happy_path_emits_once() {
    let mut st = ProbeState::new();
    st.on_tick(2);
    let (tid, _req) = make_binding_request();
    st.record_sent(tid.clone());
    let reply = stun_reply(&tid, "1.2.3.4", 5000);
    let got = st.on_datagram(&reply);
    assert_eq!(got, Some(maddr(1, 2, 3, 4, 5000)));
    assert!(st.outstanding.is_none());
    // The same datagram again finds no outstanding probe and emits nothing.
    assert_eq!(st.on_datagram(&reply), None);
}

#[test]
fn udp_mismatched_transaction_id_is_dropped() {
    let mut st = ProbeState::new();
    st.record_sent(vec![1u8; 12]);
    let reply = stun_reply(&[2u8; 12], "1.2.3.4", 5001);
    assert_eq!(st.on_datagram(&reply), None);
    assert!(st.outstanding.is_some());
    // The matching reply still lands afterwards.
    let reply = stun_reply(&[1u8; 12], "1.2.3.4", 5001);
    assert_eq!(st.on_datagram(&reply), Some(maddr(1, 2, 3, 4, 5001)));
}

#[test]
fn udp_garbage_datagram_is_dropped() {
    let mut st = ProbeState::new();
    st.record_sent(vec![1u8; 12]);
    assert_eq!(st.on_datagram(&mb("not stun")), None);
    assert!(st.outstanding.is_some());
}

#[test]
fn udp_request_round_trips_through_the_codec() {
    let (tid, req) = make_binding_request();
    let mut st = ProbeState::new();
    st.record_sent(tid);
    // A Binding Request carries no mapped address, so nothing is emitted,
    // but the transaction ID must correlate and clear the slot.
    assert_eq!(st.on_datagram(&req), None);
    assert!(st.outstanding.is_none());
}

#[test]
fn binding_request_is_the_bare_header() {
    // Message type 0x0001, zero attribute length, the magic cookie, then
    // the twelve-byte transaction ID: twenty bytes in all.
    let (tid, req) = make_binding_request();
    assert_eq!(req.len(), 20);
    assert_eq!(&req[..8], &[0x00, 0x01, 0x00, 0x00, 0x21, 0x12, 0xa4, 0x42]);
    assert_eq!(&req[8..], &tid[..]);
}

#[test]
fn tcp_probe_reassembles_the_wire_format() {
    let reply = stun_reply(&[3u8; 12], "9.9.9.9", 6000);
    let message_type = u16::from_be_bytes([reply[0], reply[1]]);
    let message_len = u16::from_be_bytes([reply[2], reply[3]]);
    let rest = reply[4..].to_vec();
    let got = parse_stun_tcp(message_type, message_len, &rest);
    assert_eq!(got, Some(maddr(9, 9, 9, 9, 6000)));
}

#[test]
fn tcp_session_publishes_only_the_first_address() {
    let mut s = SessionState::new();
    assert_eq!(s.on_candidate(maddr(9, 9, 9, 9, 6000)), CandidateOutcome::Publish);
    assert_eq!(s.on_candidate(maddr(9, 9, 9, 9, 6000)), CandidateOutcome::Ignore);
    assert_eq!(s.on_candidate(maddr(9, 9, 9, 9, 6005)), CandidateOutcome::Close);
    // The canonical address never moved.
    assert_eq!(s.canonical, Some(maddr(9, 9, 9, 9, 6000)));
    // The next session starts fresh and publishes the drifted port.
    let mut s2 = SessionState::new();
    assert_eq!(s2.on_candidate(maddr(9, 9, 9, 9, 6005)), CandidateOutcome::Publish);
}

#[test]
fn tcp_session_read_and_deadline_rules() {
    let mut s = SessionState::new();
    assert!(s.keepalive_due());
    s.on_keepalive_sent();
    assert!(!s.keepalive_due());
    assert!(!s.on_read(12));
    assert!(s.keepalive_due());
    assert_eq!(s.total_read, 12);
    assert!(s.on_read(0));
}

#[test]
fn tcp_keepalive_payload_is_a_head_request() {
    let r = keepalive_payload(&mb("/gen_204?x=1"), &mb("example.com:8080"));
    assert_eq!(
        r,
        mb("HEAD /gen_204?x=1 HTTP/1.1\r\nHost: example.com:8080\r\nConnection: keep-alive\r\n\r\n")
    );
}

#[test]
fn supervisor_publishes_new_addresses_once() {
    let mut sup = SupervisorState::new();
    let a = SupervisorEvent::Address(maddr(1, 2, 3, 4, 5000));
    let acts = sup.on_event(&a, false);
    assert_eq!(acts.publish_start, Some(0));
    assert!(!acts.renew_lease && !acts.remove_lease && !acts.stop);
    sup.record_walk(None);
    // The same address again walks nothing.
    let acts = sup.on_event(&a, false);
    assert_eq!(acts.publish_start, None);
    assert_eq!(sup.last_public, Some(mb("1.2.3.4:5000")));
}

#[test]
fn supervisor_resumes_at_the_failed_watcher() {
    let mut sup = SupervisorState::new();
    let a = SupervisorEvent::Address(maddr(1, 2, 3, 4, 5000));
    // Update 1: watcher 0 succeeded, watcher 1 failed.
    let acts = sup.on_event(&a, false);
    assert_eq!(acts.publish_start, Some(0));
    sup.record_walk(Some(1));
    // Update 2, same address: resume exactly at watcher 1.
    let acts = sup.on_event(&a, false);
    assert_eq!(acts.publish_start, Some(1));
    // Watchers 1 and 2 succeed now: the cursor clears.
    sup.record_walk(None);
    let acts = sup.on_event(&a, false);
    assert_eq!(acts.publish_start, None);
}

#[test]
fn supervisor_restarts_from_zero_on_change() {
    let mut sup = SupervisorState::new();
    let a = SupervisorEvent::Address(maddr(1, 2, 3, 4, 5000));
    sup.on_event(&a, false);
    sup.record_walk(Some(2));
    let b = SupervisorEvent::Address(maddr(1, 2, 3, 4, 5001));
    let acts = sup.on_event(&b, false);
    assert_eq!(acts.publish_start, Some(0));
}

#[test]
fn supervisor_renews_lease_on_each_address() {
    let mut sup = SupervisorState::new();
    let a = SupervisorEvent::Address(maddr(1, 2, 3, 4, 5000));
    assert!(sup.on_event(&a, true).renew_lease);
    assert!(!sup.on_event(&a, false).renew_lease);
}

#[test]
fn supervisor_shutdown_removes_lease_and_stops() {
    let mut with_lease = SupervisorState::new();
    let mut without_lease = SupervisorState::new();
    let acts = with_lease.on_event(&SupervisorEvent::Shutdown, true);
    assert!(acts.remove_lease && acts.stop);
    assert_eq!(acts.publish_start, None);
    let acts = without_lease.on_event(&SupervisorEvent::Shutdown, false);
    assert!(!acts.remove_lease && acts.stop);
    // A second shutdown finds the supervisor stopped: the lease is removed
    // exactly once.
    let acts = with_lease.on_event(&SupervisorEvent::Shutdown, true);
    assert!(!acts.remove_lease && acts.stop);
    // After shutdown every event is inert: no walk, no lease touch.
    let a = SupervisorEvent::Address(maddr(1, 2, 3, 4, 5000));
    let acts = with_lease.on_event(&a, true);
    assert!(!acts.renew_lease && !acts.remove_lease && acts.stop);
    assert_eq!(acts.publish_start, None);
    assert_eq!(with_lease.last_public, None);
}

#[test]
fn upnp_renewal_threshold() {
    let mut pm = make_lease(Protocol::Tcp, Ipv4Octets { a: 192, b: 168, c: 1, d: 2 }, 8080, 18080, 3600, 1000);
    assert!(!pm.needs_renewal(1000));
    assert!(!pm.needs_renewal(1000 + MAPPING_TIMEOUT - 1));
    assert!(pm.needs_renewal(1000 + MAPPING_TIMEOUT));
    pm.mark_renewed(5000);
    assert!(!pm.needs_renewal(5000 + MAPPING_TIMEOUT - 1));
    assert!(pm.needs_renewal(5000 + MAPPING_TIMEOUT));
}

#[test]
fn upnp_permanent_lease_never_renews() {
    let outcome = AddPortOutcome::PermanentOnly;
    assert!(retry_with_permanent_lease(&outcome));
    assert!(!retry_with_permanent_lease(&AddPortOutcome::Granted(18080)));
    assert!(!retry_with_permanent_lease(&AddPortOutcome::Failed));
    // The fallback lease carries zero seconds and never renews.
    let pm = make_lease(Protocol::Udp, Ipv4Octets { a: 10, b: 0, c: 0, d: 9 }, 9000, 19000, 0, 1000);
    assert!(!pm.needs_renewal(i64::MAX));
}

#[test]
fn upnp_remove_zeroes_the_lease() {
    let mut pm = make_lease(Protocol::Tcp, Ipv4Octets { a: 10, b: 0, c: 0, d: 9 }, 9000, 19000, 3600, 1000);
    assert_eq!(pm.local_addr(), mb("0.0.0.0:19000"));
    pm.mark_removed();
    assert_eq!(pm.external_port, 0);
    assert_eq!(pm.last_renewed, 0);
    pm.mark_removed();
    assert_eq!(pm.external_port, 0);
}

#[test]
fn upnp_forward_ip_falls_back_to_local() {
    let local = Ipv4Octets { a: 192, b: 168, c: 1, d: 7 };
    let given = Ipv4Octets { a: 10, b: 1, c: 2, d: 3 };
    assert_eq!(nat2::upnp::resolve_forward_ip(Ipv4Octets { a: 0, b: 0, c: 0, d: 0 }, local), local);
    assert_eq!(nat2::upnp::resolve_forward_ip(given, local), given);
}

#[test]
fn upnp_description_names_the_host() {
    assert_eq!(nat2::upnp::description_with(Some(mb("box"))), mb("NAT2 - box"));
    assert_eq!(nat2::upnp::description_with(None), mb("NAT2"));
}

#[test]
fn scheme_classification() {
    assert_eq!(classify_scheme(&mb("tcp")), Some((Protocol::Tcp, false)));
    assert_eq!(classify_scheme(&mb("tcp+upnp")), Some((Protocol::Tcp, true)));
    assert_eq!(classify_scheme(&mb("upnp+tcp")), Some((Protocol::Tcp, true)));
    assert_eq!(classify_scheme(&mb("udp")), Some((Protocol::Udp, false)));
    assert_eq!(classify_scheme(&mb("udp+upnp")), Some((Protocol::Udp, true)));
    assert_eq!(classify_scheme(&mb("upnp+udp")), Some((Protocol::Udp, true)));
    assert_eq!(classify_scheme(&mb("http")), None);
}

#[test]
fn upnp_enabled_reads_the_scheme() {
    assert!(upnp_enabled(&mb("tcp+upnp://0.0.0.0:8080")));
    assert!(upnp_enabled(&mb("upnp+udp://0.0.0.0:9000")));
    assert!(!upnp_enabled(&mb("tcp://0.0.0.0:8080")));
    assert!(!upnp_enabled(&mb("not a url")));
}

#[test]
fn upnp_switches_compose() {
    assert!(global_upnp(None));
    assert!(global_upnp(Some(true)));
    assert!(!global_upnp(Some(false)));
    assert!(wants_upnp(true, false));
    assert!(wants_upnp(false, true));
    assert!(!wants_upnp(false, false));
}

#[test]
fn mapping_local_addr_needs_a_port() {
    assert_eq!(mapping_local_addr(&mb("tcp://0.0.0.0:8080")), Some(mb("0.0.0.0:8080")));
    assert_eq!(mapping_local_addr(&mb("udp://192.168.1.5:70")), Some(mb("192.168.1.5:70")));
    assert_eq!(mapping_local_addr(&mb("tcp://0.0.0.0")), None);
    assert_eq!(mapping_local_addr(&mb("::::")), None);
}

#[test]
fn builders_apply_options_guardedly() {
    let b = nat2::client::udp::Builder::new(mb("m1"), mb("0.0.0.0:0"));
    assert_eq!(b.interval, 20);
    assert_eq!(b.stun_addrs.len(), 4);
    let b = b.interval(0);
    assert_eq!(b.interval, 20);
    let b = b.interval(7);
    assert_eq!(b.interval, 7);
    let b = b.stun_addrs(vec![]);
    assert_eq!(b.stun_addrs.len(), 4);
    let b = b.stun_addrs(vec![mb("s1:3478")]);
    assert_eq!(b.stun_addrs, vec![mb("s1:3478")]);

    let t = nat2::client::tcp::Builder::new(mb("m2"), mb("0.0.0.0:0"));
    assert_eq!(t.interval, 50);
    assert_eq!(t.stun_interval, 300);
    assert_eq!(t.keepalive_url, mb("http://www.baidu.com"));
    assert_eq!(t.stun_addrs, vec![mb("turn.cloud-rtc.com:80")]);
    let t = t.keepalive_url(mb("http://example.com/ka")).stun_interval(0).interval(60);
    assert_eq!(t.keepalive_url, mb("http://example.com/ka"));
    assert_eq!(t.stun_interval, 300);
    assert_eq!(t.interval, 60);
}

#[test]
fn tcp_host_header_carries_explicit_port() {
    assert_eq!(
        nat2::client::tcp::host_header_text(&mb("example.com"), Some(8080)),
        mb("example.com:8080")
    );
    assert_eq!(nat2::client::tcp::host_header_text(&mb("example.com"), None), mb("example.com"));
    assert_eq!(nat2::client::tcp::remote_addr_text(&mb("example.com"), 80), mb("example.com:80"));
}

#[test]
fn tcp_prober_rotates_round_robin() {
    assert_eq!(nat2::client::tcp::next_server_index(0, 3), 1);
    assert_eq!(nat2::client::tcp::next_server_index(2, 3), 0);
    assert_eq!(nat2::client::tcp::next_server_index(0, 1), 0);
}
