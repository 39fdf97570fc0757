//! Template substitution, domain splitting and the byte-string helpers.

use nat2::bytes;
use nat2::client::{Ipv4Octets, MappedAddress};
use nat2::watcher::dns;
use nat2::watcher::format_value;

fn tb(s: &str) -> Vec<u8> {
    s.as_bytes().to_vec()
}

fn addr(a: u8, b: u8, c: u8, d: u8, port: u16) -> MappedAddress {
    MappedAddress { ip: Ipv4Octets { a, b, c, d }, port }
}

#[test]
fn format_value_substitutes_both_tokens() {
    let r = format_value(&tb("{ip}/{port}"), &addr(1, 2, 3, 4, 5000));
    assert_eq!(r, tb("1.2.3.4/5000"));
}

#[test]
fn format_value_substitutes_repeated_tokens() {
    let r = format_value(&tb("a={ip},b={ip},p={port}{port}"), &addr(10, 0, 0, 1, 81));
    assert_eq!(r, tb("a=10.0.0.1,b=10.0.0.1,p=8181"));
}

#[test]
fn format_value_token_free_is_identity() {
    let v = tb("no tokens here");
    assert_eq!(format_value(&v, &addr(1, 1, 1, 1, 1111)), v);
}

#[test]
fn format_value_is_idempotent_after_substitution() {
    let a = addr(9, 9, 9, 9, 6000);
    let once = format_value(&tb("{ip}:{port}"), &a);
    let twice = format_value(&once, &a);
    assert_eq!(once, twice);
    assert_eq!(once, tb("9.9.9.9:6000"));
}

#[test]
fn mapped_address_text_is_ip_colon_port() {
    assert_eq!(addr(255, 0, 12, 7, 65535).to_text(), tb("255.0.12.7:65535"));
    assert_eq!(addr(0, 0, 0, 0, 0).to_text(), tb("0.0.0.0:0"));
}

#[test]
fn split_domain_name_splits_subdomain() {
    let r = dns::split_domain_name(&tb("www.example.com")).unwrap();
    assert_eq!(r.0, tb("example.com"));
    assert_eq!(r.1, tb("www"));
}

#[test]
fn split_domain_name_bare_sld() {
    let r = dns::split_domain_name(&tb("example.com")).unwrap();
    assert_eq!(r.0, tb("example.com"));
    assert_eq!(r.1, tb(""));
}

#[test]
fn split_domain_name_deep_subdomain() {
    let r = dns::split_domain_name(&tb("a.b.c.example.com")).unwrap();
    assert_eq!(r.0, tb("example.com"));
    assert_eq!(r.1, tb("a.b.c"));
}

#[test]
fn split_domain_name_tolerates_trailing_dot() {
    let r = dns::split_domain_name(&tb("www.example.com.")).unwrap();
    assert_eq!(r.0, tb("example.com"));
    assert_eq!(r.1, tb("www"));
}

#[test]
fn split_domain_name_rejects_single_label() {
    assert!(dns::split_domain_name(&tb("com")).is_none());
    assert!(dns::split_domain_name(&tb("")).is_none());
    assert!(dns::split_domain_name(&tb(".")).is_none());
}

#[test]
fn split_domain_name_rejects_empty_last_labels() {
    assert!(dns::split_domain_name(&tb(".com")).is_none());
    assert!(dns::split_domain_name(&tb("a..com")).is_none());
    assert!(dns::split_domain_name(&tb("a.b..")).is_none());
}

#[test]
fn parse_u64_reads_decimal() {
    assert_eq!(bytes::parse_u64(b"0"), Some(0));
    assert_eq!(bytes::parse_u64(b"123456"), Some(123456));
    assert_eq!(bytes::parse_u64(b"18446744073709551615"), Some(u64::MAX));
}

#[test]
fn parse_u64_rejects_junk_and_overflow() {
    assert_eq!(bytes::parse_u64(b""), None);
    assert_eq!(bytes::parse_u64(b"12a"), None);
    assert_eq!(bytes::parse_u64(b"-3"), None);
    assert_eq!(bytes::parse_u64(b"18446744073709551616"), None);
}

#[test]
fn replace_bytes_replaces_left_to_right() {
    let r = bytes::replace_bytes(b"aaa", b"aa", b"b");
    assert_eq!(r, tb("ba"));
    let r = bytes::replace_bytes(b"x{t}y{t}", b"{t}", b"12");
    assert_eq!(r, tb("x12y12"));
}

#[test]
fn split_and_join_round_trip() {
    let parts = bytes::split_bytes(b"a..b.c", b'.');
    let texts: Vec<Vec<u8>> = parts.iter().map(|p| p.clone()).collect();
    assert_eq!(texts, vec![tb("a"), tb(""), tb("b"), tb("c")]);
    assert_eq!(bytes::join_bytes(&parts, b'.'), tb("a..b.c"));
}

#[test]
fn ascii_case_changes_letters_only() {
    assert_eq!(bytes::ascii_lower(b"SvCb-09_z"), tb("svcb-09_z"));
    assert_eq!(bytes::ascii_upper(b"SvCb-09_z"), tb("SVCB-09_Z"));
}

#[test]
fn trim_bytes_strips_spaces() {
    assert_eq!(bytes::trim_bytes(b"  a b  "), tb("a b"));
    assert_eq!(bytes::trim_bytes(b"   "), tb(""));
    assert_eq!(bytes::trim_bytes(b"ab"), tb("ab"));
}

#[test]
fn percent_encode_keeps_unreserved() {
    assert_eq!(bytes::percent_encode(b"Az09-._~"), tb("Az09-._~"));
    assert_eq!(bytes::percent_encode(b"a b+c"), tb("a%20b%2Bc"));
}

#[test]
fn u64_to_dec_writes_digits() {
    assert_eq!(bytes::u64_to_dec(0), tb("0"));
    assert_eq!(bytes::u64_to_dec(10), tb("10"));
    assert_eq!(bytes::u64_to_dec(18446744073709551615), tb("18446744073709551615"));
}
