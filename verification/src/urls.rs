//! Url handling. Parsing is the `url` crate's work, wrapped once here; the
//! scheme rules that decide a mapping's protocol and its UPnP wish are the
//! crate's own and verified.

use crate::upnp::Protocol;
use vstd::prelude::*;
use vstd::string::StringSliceAdditionalSpecFns;

verus! {

/// Why an url handed to a watcher was rejected.
#[derive(PartialEq, Eq, Structural, Clone, Copy, Debug)]
pub enum UrlError {
    /// The url does not parse, or names no host.
    Invalid,
}

/// What this crate reads out of a parsed url.
pub struct UrlParts {
    /// The scheme, lower-cased by the parser.
    pub scheme: Seq<u8>,
    /// The host, as the parser writes it.
    pub host: Seq<u8>,
    /// The explicit port, when the url names one.
    pub port: Option<u16>,
    /// The explicit port, or the scheme's well-known default.
    pub port_or_default: Option<u16>,
    /// Everything from the path on: path, query and fragment.
    pub path_and_query: Seq<u8>,
}

/// What `url::Url::parse` makes of `s`: `None` when it rejects the string,
/// otherwise the parts this crate reads.
pub uninterp spec fn url_parts_of(s: Seq<u8>) -> Option<UrlParts>;

/// An url already parsed into the parts this crate reads.
pub struct ParsedUrl {
    /// The scheme, lower-cased by the parser.
    pub scheme: Vec<u8>,
    /// The host, as the parser writes it.
    pub host: Vec<u8>,
    /// The explicit port, when the url names one.
    pub port: Option<u16>,
    /// The explicit port, or the scheme's well-known default.
    pub port_or_default: Option<u16>,
    /// Everything from the path on: path, query and fragment.
    pub path_and_query: Vec<u8>,
}

impl ParsedUrl {
    /// The parsed url carries exactly these parts.
    pub open spec fn is_parts(self, p: UrlParts) -> bool {
        &&& self.scheme@ == p.scheme
        &&& self.host@ == p.host
        &&& self.port == p.port
        &&& self.port_or_default == p.port_or_default
        &&& self.path_and_query@ == p.path_and_query
    }
}

/// Relies on `url::Url::parse` and its accessors `scheme`, `host`, `port`,
/// `port_or_known_default` and range indexing from `Position::BeforePath`:
/// parsing is a function of the string alone. A url without a host is
/// reported as unparsable, as the callers demand one.
#[verifier::external_body]
pub(crate) fn parse_url(s: &Vec<u8>) -> (r: Option<ParsedUrl>)
    ensures
        r is Some <==> url_parts_of(s@) is Some,
        r matches Some(u) ==> url_parts_of(s@) matches Some(p) && u.is_parts(p),
{
    let text = core::str::from_utf8(s.as_slice()).ok()?;
    let url = url::Url::parse(text).ok()?;
    let host = url.host()?.to_string();
    Some(ParsedUrl {
        scheme: url.scheme().as_bytes().to_vec(),
        host: host.into_bytes(),
        port: url.port(),
        port_or_default: url.port_or_known_default(),
        path_and_query: url[url::Position::BeforePath..].as_bytes().to_vec(),
    })
}

/// The protocol a mapping scheme names, and whether it asks for UPnP.
pub open spec fn scheme_proto(s: Seq<u8>) -> Option<(Protocol, bool)> {
    if s == "tcp".spec_bytes() {
        Some((Protocol::Tcp, false))
    } else if s == "tcp+upnp".spec_bytes() || s == "upnp+tcp".spec_bytes() {
        Some((Protocol::Tcp, true))
    } else if s == "udp".spec_bytes() {
        Some((Protocol::Udp, false))
    } else if s == "udp+upnp".spec_bytes() || s == "upnp+udp".spec_bytes() {
        Some((Protocol::Udp, true))
    } else {
        None
    }
}

/// Reads a mapping scheme: its protocol and whether it asks for UPnP.
/// `None` for any other scheme.
pub fn classify_scheme(s: &Vec<u8>) -> (r: Option<(Protocol, bool)>)
    ensures
        r == scheme_proto(s@),
{
    proof {
        reveal_strlit("tcp");
        reveal_strlit("tcp+upnp");
        reveal_strlit("upnp+tcp");
        reveal_strlit("udp");
        reveal_strlit("udp+upnp");
        reveal_strlit("upnp+udp");
    }
    let sl = s.as_slice();
    if crate::bytes::bytes_eq(sl, crate::bytes::lit("tcp").as_slice()) {
        Some((Protocol::Tcp, false))
    } else if crate::bytes::bytes_eq(sl, crate::bytes::lit("tcp+upnp").as_slice())
        || crate::bytes::bytes_eq(sl, crate::bytes::lit("upnp+tcp").as_slice()) {
        Some((Protocol::Tcp, true))
    } else if crate::bytes::bytes_eq(sl, crate::bytes::lit("udp").as_slice()) {
        Some((Protocol::Udp, false))
    } else if crate::bytes::bytes_eq(sl, crate::bytes::lit("udp+upnp").as_slice())
        || crate::bytes::bytes_eq(sl, crate::bytes::lit("upnp+udp").as_slice()) {
        Some((Protocol::Udp, true))
    } else {
        None
    }
}

/// True when the url parses and its scheme asks for UPnP.
pub fn upnp_enabled(url: &Vec<u8>) -> (r: bool)
    ensures
        r == match url_parts_of(url@) {
            Some(p) => scheme_proto(p.scheme) matches Some(c) && c.1,
            None => false,
        },
{
    match parse_url(url) {
        Some(u) => match classify_scheme(&u.scheme) {
            Some((_, upnp)) => upnp,
            None => false,
        },
        None => false,
    }
}

} // verus!
