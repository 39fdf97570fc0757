//! Hole-punching clients: the mapped-address value type and the STUN wire
//! calls both client variants share.
//!
//! The STUN encoding itself is the `stun` crate's work; this module wraps the
//! few calls the clients make and gives their results names that the client
//! state machines reason with.

pub mod tcp;
pub mod udp;

use crate::bytes::{dec_digits, COLON, DOT};
use stun::message::Getter;
use vstd::prelude::*;

verus! {

/// The four octets of an IPv4 address.
#[derive(Clone, Copy, PartialEq, Eq, Structural, Debug)]
pub struct Ipv4Octets {
    pub a: u8,
    pub b: u8,
    pub c: u8,
    pub d: u8,
}

/// A public transport address discovered through STUN: IPv4 address and port.
#[derive(Clone, Copy, PartialEq, Eq, Structural, Debug)]
pub struct MappedAddress {
    pub ip: Ipv4Octets,
    pub port: u16,
}

impl Ipv4Octets {
    /// The dotted-decimal text of the address.
    pub open spec fn text(self) -> Seq<u8> {
        dec_digits(self.a as int) + seq![DOT] + dec_digits(self.b as int) + seq![DOT] + dec_digits(
            self.c as int,
        ) + seq![DOT] + dec_digits(self.d as int)
    }

    /// Writes the address in dotted decimal.
    pub fn to_text(&self) -> (r: Vec<u8>)
        ensures
            r@ == self.text(),
    {
        let mut r = crate::bytes::u64_to_dec(self.a as u64);
        r.push(DOT);
        let b = crate::bytes::u64_to_dec(self.b as u64);
        crate::bytes::append_bytes(&mut r, b.as_slice());
        r.push(DOT);
        let c = crate::bytes::u64_to_dec(self.c as u64);
        crate::bytes::append_bytes(&mut r, c.as_slice());
        r.push(DOT);
        let d = crate::bytes::u64_to_dec(self.d as u64);
        crate::bytes::append_bytes(&mut r, d.as_slice());
        proof {
            assert(r@ =~= self.text());
        }
        r
    }
}

impl MappedAddress {
    /// The `ip:port` text of the address, the form the supervisor compares
    /// and publishes.
    pub open spec fn text(self) -> Seq<u8> {
        self.ip.text() + seq![COLON] + dec_digits(self.port as int)
    }

    /// Writes the address as `ip:port`.
    pub fn to_text(&self) -> (r: Vec<u8>)
        ensures
            r@ == self.text(),
    {
        let mut r = self.ip.to_text();
        r.push(COLON);
        let p = crate::bytes::u64_to_dec(self.port as u64);
        crate::bytes::append_bytes(&mut r, p.as_slice());
        proof {
            assert(r@ =~= self.text());
        }
        r
    }
}

/// The bytes of a STUN Binding Request carrying transaction ID `tid`: the
/// message type `0x0001`, a zero attribute length, the magic cookie, and
/// the ID.
pub open spec fn stun_request_of(tid: Seq<u8>) -> Seq<u8> {
    seq![0x00u8, 0x01u8, 0x00u8, 0x00u8, 0x21u8, 0x12u8, 0xa4u8, 0x42u8] + tid
}

/// The transaction ID of `buf` when `buf` decodes as a STUN message,
/// `None` when it does not.
pub uninterp spec fn stun_tid_of(buf: Seq<u8>) -> Option<Seq<u8>>;

/// The XOR-MAPPED-ADDRESS carried by `buf` when `buf` decodes as a STUN
/// message holding that attribute with an IPv4 address, `None` otherwise.
pub uninterp spec fn stun_mapped_of(buf: Seq<u8>) -> Option<MappedAddress>;

/// Relies on `stun::agent::TransactionId::new`: a fresh random 12-byte
/// transaction ID. Nothing is assumed of its value.
#[verifier::external_body]
pub(crate) fn new_transaction_id() -> (r: Vec<u8>)
    ensures
        r@.len() == 12,
{
    stun::agent::TransactionId::new().0.to_vec()
}

/// Relies on `stun::message::Message::build` and `encode`: with the
/// transaction-ID and message-type setters, which cannot fail, the build
/// always succeeds, and an attribute-less Binding Request is exactly the
/// 20-byte header that `write_header` lays out.
#[verifier::external_body]
pub(crate) fn encode_binding_request(tid: &Vec<u8>) -> (r: Option<Vec<u8>>)
    requires
        tid@.len() == 12,
    ensures
        r is Some,
        r matches Some(v) ==> v@ == stun_request_of(tid@),
{
    let mut id = [0u8; 12];
    id.copy_from_slice(tid.as_slice());
    let mut msg = stun::message::Message::new();
    msg.build(
        &[Box::new(stun::agent::TransactionId(id)), Box::new(stun::message::BINDING_REQUEST)],
    ).ok()?;
    msg.encode();
    Some(msg.raw)
}

/// Relies on `stun::message::Message::write`: decoding a buffer is a function
/// of its bytes, and a decoded message's transaction ID is 12 bytes.
#[verifier::external_body]
pub(crate) fn decode_transaction_id(buf: &Vec<u8>) -> (r: Option<Vec<u8>>)
    ensures
        r is Some <==> stun_tid_of(buf@) is Some,
        r is Some ==> r->0@ == stun_tid_of(buf@)->0 && r->0@.len() == 12,
{
    let mut msg = stun::message::Message::new();
    msg.write(buf.as_slice()).ok()?;
    Some(msg.transaction_id.0.to_vec())
}

/// Relies on `stun::message::Message::write` and
/// `stun::xoraddr::XorMappedAddress::get_from`: the attribute a buffer
/// carries is a function of its bytes. IPv6 addresses are dropped, as the
/// clients are IPv4-only.
#[verifier::external_body]
pub(crate) fn decode_mapped_address(buf: &Vec<u8>) -> (r: Option<MappedAddress>)
    ensures
        r == stun_mapped_of(buf@),
{
    let mut msg = stun::message::Message::new();
    msg.write(buf.as_slice()).ok()?;
    let mut xor = stun::xoraddr::XorMappedAddress::default();
    xor.get_from(&msg).ok()?;
    match xor.ip {
        core::net::IpAddr::V4(ip) => {
            let o = ip.octets();
            Some(MappedAddress {
                ip: Ipv4Octets { a: o[0], b: o[1], c: o[2], d: o[3] },
                port: xor.port,
            })
        },
        core::net::IpAddr::V6(_) => None,
    }
}

/// A fresh Binding Request, ready to send: its transaction ID and its bytes.
pub fn make_binding_request() -> (r: (Vec<u8>, Vec<u8>))
    ensures
        r.0@.len() == 12,
        r.1@ == stun_request_of(r.0@),
{
    let tid = new_transaction_id();
    match encode_binding_request(&tid) {
        Some(body) => (tid, body),
        None => vstd::pervasive::unreached(),
    }
}

/// The two big-endian bytes of `n`.
pub fn u16_be_bytes(n: u16) -> (r: Vec<u8>)
    ensures
        r@ =~= seq![(n / 256) as u8, (n % 256) as u8],
{
    let mut r: Vec<u8> = Vec::new();
    r.push((n / 256) as u8);
    r.push((n % 256) as u8);
    r
}

/// Reassembles a STUN-over-TCP response read as header fields plus remainder
/// and extracts its XOR-MAPPED-ADDRESS: exactly the attribute carried by the
/// reassembled byte string.
pub fn parse_stun_tcp(message_type: u16, message_len: u16, rest: &Vec<u8>) -> (r: Option<
    MappedAddress,
>)
    requires
        rest@.len() <= usize::MAX - 4,
    ensures
        r == stun_mapped_of(
            seq![
                (message_type / 256) as u8,
                (message_type % 256) as u8,
                (message_len / 256) as u8,
                (message_len % 256) as u8,
            ] + rest@,
        ),
{
    let mut buf = u16_be_bytes(message_type);
    let len_bytes = u16_be_bytes(message_len);
    crate::bytes::append_bytes(&mut buf, len_bytes.as_slice());
    crate::bytes::append_bytes(&mut buf, rest.as_slice());
    proof {
        assert(buf@ =~= seq![
            (message_type / 256) as u8,
            (message_type % 256) as u8,
            (message_len / 256) as u8,
            (message_len % 256) as u8,
        ] + rest@);
    }
    decode_mapped_address(&buf)
}

} // verus!
