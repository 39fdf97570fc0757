//! Watchers consume mapped-address updates: DNS providers, HTTP endpoints
//! and scripts. This module holds what all of them share: template
//! substitution and the domain rules of the DNS providers.

pub mod alidns;
pub mod cf;
pub mod crypto;
pub mod dns;
pub mod dnspod;
pub mod http;
pub mod script;

use crate::bytes::{contains_seq, dec_digits, lemma_replace_absent, replace_seq};
use crate::client::MappedAddress;
use vstd::prelude::*;
use vstd::string::StringSliceAdditionalSpecFns;

verus! {

/// An error a provider's API reported: its code and its message.
#[derive(Debug, Clone, PartialEq, Eq)]
pub struct ApiError {
    /// The provider's error code.
    pub code: Vec<u8>,
    /// The provider's error message.
    pub message: Vec<u8>,
}

/// Why publishing an address to a watcher failed.
#[derive(Debug, PartialEq, Eq)]
pub enum WatcherError {
    /// The provider's API reported an error.
    Api(ApiError),
    /// The provider's answer names no record id.
    MissingRecordId,
}

/// `value` with `{ip}` and `{port}` replaced by the address's text: first
/// every `{ip}`, then every `{port}`, as two `str::replace` passes.
pub open spec fn formatted(value: Seq<u8>, addr: MappedAddress) -> Seq<u8> {
    replace_seq(
        replace_seq(value, "{ip}".spec_bytes(), addr.ip.text()),
        "{port}".spec_bytes(),
        dec_digits(addr.port as int),
    )
}

/// Replaces `{ip}` and `{port}` in `value` with the actual address.
pub fn format_value(value: &Vec<u8>, addr: &MappedAddress) -> (r: Vec<u8>)
    ensures
        r@ == formatted(value@, *addr),
{
    proof {
        reveal_strlit("{ip}");
        reveal_strlit("{port}");
        vstd::string::is_ascii_spec_bytes("{ip}");
        vstd::string::is_ascii_spec_bytes("{port}");
    }
    let ip_token = crate::bytes::lit("{ip}");
    let port_token = crate::bytes::lit("{port}");
    let ip_text = addr.ip.to_text();
    let port_text = crate::bytes::u64_to_dec(addr.port as u64);
    let pass = crate::bytes::replace_bytes(value.as_slice(), ip_token.as_slice(), ip_text.as_slice());
    crate::bytes::replace_bytes(pass.as_slice(), port_token.as_slice(), port_text.as_slice())
}

/// Substitution is idempotent once the tokens are absent: formatting a
/// value that holds neither `{ip}` nor `{port}` gives it back unchanged.
pub proof fn lemma_format_value_token_free(value: Seq<u8>, addr: MappedAddress)
    requires
        !contains_seq(value, "{ip}".spec_bytes()),
        !contains_seq(value, "{port}".spec_bytes()),
    ensures
        formatted(value, addr) == value,
{
    reveal_strlit("{ip}");
    reveal_strlit("{port}");
    vstd::string::is_ascii_spec_bytes("{ip}");
    vstd::string::is_ascii_spec_bytes("{port}");
    lemma_replace_absent(value, "{ip}".spec_bytes(), addr.ip.text());
    lemma_replace_absent(value, "{port}".spec_bytes(), dec_digits(addr.port as int));
}

} // verus!
