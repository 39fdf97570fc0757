//! The AliDNS provider: ACS3-HMAC-SHA256 request signing over a sorted,
//! percent-encoded query string, record payloads and response
//! interpretation. The HTTP transport runs outside.

use crate::bytes::{dec_digits, join_seq, pct_encoded, views};
use crate::client::MappedAddress;
use crate::config::Metadata;
use crate::watcher::crypto::{hex_of, hmac_sha256_of, iso8601_text_of, sha256_of};
use crate::watcher::dns::ValidateError;
use crate::watcher::{ApiError, WatcherError};
use vstd::prelude::*;
use vstd::string::StringSliceAdditionalSpecFns;

verus! {

/// [AliDNS](https://www.alidns.com).
pub struct AliDns {
    /// Instance name.
    pub name: Vec<u8>,
    /// Request url.
    pub url: Vec<u8>,
    /// HTTP host header, with the explicit port when the url names one.
    pub host: Vec<u8>,
    /// Similar to a username.
    pub secret_id: Vec<u8>,
    /// Similar to a password.
    pub secret_key: Vec<u8>,
}

/// A DNS record as the provider's API takes it.
pub struct Record {
    /// The second-level domain the record lives under.
    pub domain_name: Vec<u8>,
    /// The host record: the subdomain, written `@` when empty.
    pub rr: Vec<u8>,
    /// Record type.
    pub record_type: Vec<u8>,
    /// Record value, tokens already substituted.
    pub value: Vec<u8>,
    /// Record priority.
    pub priority: Option<u16>,
    /// Record TTL.
    pub ttl: Option<u32>,
}

/// One query pair, percent-encoded and glued with `=`.
pub open spec fn pair_text(key: Seq<u8>, value: Seq<u8>) -> Seq<u8> {
    pct_encoded(key) + seq![61u8] + pct_encoded(value)
}

/// The texts of a pair list, in order.
pub open spec fn pair_texts(pairs: Seq<(Vec<u8>, Vec<u8>)>) -> Seq<Seq<u8>> {
    pairs.map_values(|p: (Vec<u8>, Vec<u8>)| pair_text(p.0@, p.1@))
}

/// The canonical query string of a pair list: each pair percent-encoded,
/// glued with `&` in the order given.
pub open spec fn query_text(pairs: Seq<(Vec<u8>, Vec<u8>)>) -> Seq<u8> {
    join_seq(pair_texts(pairs), 38u8)
}

/// Writes the canonical query string of `pairs`, which the callers hand
/// over already sorted.
pub fn canonical_query(pairs: &Vec<(Vec<u8>, Vec<u8>)>) -> (r: Vec<u8>)
    ensures
        r@ == query_text(pairs@),
{
    let mut texts: Vec<Vec<u8>> = Vec::new();
    let mut i: usize = 0;
    while i < pairs.len()
        invariant
            i <= pairs@.len(),
            views(texts@) =~~= pair_texts(pairs@).take(i as int),
        decreases pairs.len() - i,
    {
        let ghost before = texts@;
        let mut t = crate::bytes::percent_encode(pairs[i].0.as_slice());
        t.push(61);
        let v = crate::bytes::percent_encode(pairs[i].1.as_slice());
        crate::bytes::append_bytes(&mut t, v.as_slice());
        proof {
            assert(t@ =~= pair_text(pairs@[i as int].0@, pairs@[i as int].1@));
        }
        texts.push(t);
        proof {
            assert(views(texts@) =~~= views(before).push(pair_text(
                pairs@[i as int].0@,
                pairs@[i as int].1@,
            )));
            assert(views(before).push(pair_text(pairs@[i as int].0@, pairs@[i as int].1@)) =~~=
            pair_texts(pairs@).take(i + 1));
        }
        i = i + 1;
    }
    proof {
        assert(pair_texts(pairs@).take(pairs@.len() as int) =~~= pair_texts(pairs@));
    }
    crate::bytes::join_bytes(texts.as_slice(), 38)
}

/// The canonical `x-acs-*` header block, names sorted, one `name:value`
/// a line.
pub open spec fn acs_headers_text(action: Seq<u8>, date: Seq<u8>, nonce_hex: Seq<u8>) -> Seq<u8> {
    "x-acs-action:".spec_bytes() + action + "\nx-acs-content-sha256:".spec_bytes() + hex_of(
        sha256_of(Seq::<u8>::empty()),
    ) + "\nx-acs-date:".spec_bytes() + date + "\nx-acs-signature-nonce:".spec_bytes() + nonce_hex
        + "\nx-acs-version:2015-01-09".spec_bytes()
}

/// The ACS3 canonical request: a POST of an empty body to `/` with the
/// sorted query and the signed headers.
pub open spec fn canonical_request(
    host: Seq<u8>,
    query: Seq<u8>,
    action: Seq<u8>,
    date: Seq<u8>,
    nonce_hex: Seq<u8>,
) -> Seq<u8> {
    "POST\n/\n".spec_bytes() + query + "\nhost:".spec_bytes() + host + "\n".spec_bytes()
        + acs_headers_text(action, date, nonce_hex)
        + "\n\nhost;x-acs-action;x-acs-content-sha256;x-acs-date;x-acs-signature-nonce;x-acs-version\n".spec_bytes()
        + hex_of(sha256_of(Seq::<u8>::empty()))
}

/// The `Authorization` header value for one signed request.
pub open spec fn authorization_of(
    secret_id: Seq<u8>,
    secret_key: Seq<u8>,
    host: Seq<u8>,
    query: Seq<u8>,
    action: Seq<u8>,
    date: Seq<u8>,
    nonce_hex: Seq<u8>,
) -> Seq<u8> {
    "ACS3-HMAC-SHA256 Credential=".spec_bytes() + secret_id
        + ", SignedHeaders=host;x-acs-action;x-acs-content-sha256;x-acs-date;x-acs-signature-nonce;x-acs-version, Signature=".spec_bytes()
        + hex_of(
        hmac_sha256_of(
            secret_key,
            "ACS3-HMAC-SHA256\n".spec_bytes() + hex_of(
                sha256_of(canonical_request(host, query, action, date, nonce_hex)),
            ),
        ),
    )
}

impl AliDns {
    /// An AliDNS watcher aimed at `url`, or at the provider's default API
    /// host. Fails exactly when the chosen url does not parse or names no
    /// host.
    pub fn new(
        name: Vec<u8>,
        secret_id: Vec<u8>,
        secret_key: Vec<u8>,
        url: Option<Vec<u8>>,
    ) -> (r: Result<AliDns, crate::urls::UrlError>)
        ensures
            ({
                let effective = match url {
                    Some(u) => u@,
                    None => "https://dns.aliyuncs.com".spec_bytes(),
                };
                match crate::urls::url_parts_of(effective) {
                    Some(p) => r matches Ok(w) && w.name == name && w.secret_id == secret_id
                        && w.secret_key == secret_key && w.url@ == effective && w.host@ == (match p
                        .port {
                        Some(pt) => p.host + seq![crate::bytes::COLON] + dec_digits(pt as int),
                        None => p.host,
                    }),
                    None => r matches Err(e) && e == crate::urls::UrlError::Invalid,
                }
            }),
    {
        proof {
            reveal_strlit("https://dns.aliyuncs.com");
        }
        let url = match url {
            Some(u) => u,
            None => crate::bytes::lit("https://dns.aliyuncs.com"),
        };
        let parts = match crate::urls::parse_url(&url) {
            Some(p) => p,
            None => {
                return Err(crate::urls::UrlError::Invalid);
            },
        };
        let host = crate::client::tcp::host_header_text(&parts.host, parts.port);
        Ok(AliDns { name, url, host, secret_id, secret_key })
    }

    /// The watcher's kind tag.
    pub fn kind(&self) -> (r: Vec<u8>)
        ensures
            r@ == "alidns".spec_bytes(),
    {
        proof {
            reveal_strlit("alidns");
        }
        crate::bytes::lit("alidns")
    }

    /// The ACS3 signature header for one request, exactly as
    /// `authorization_of` lays it out.
    pub fn sign(&self, action: &Vec<u8>, query: &Vec<u8>, date: &Vec<u8>, nonce_hex: &Vec<u8>) -> (r:
        Vec<u8>)
        ensures
            r@ == authorization_of(
                self.secret_id@,
                self.secret_key@,
                self.host@,
                query@,
                action@,
                date@,
                nonce_hex@,
            ),
    {
        proof {
            reveal_strlit("POST\n/\n");
            reveal_strlit("\nhost:");
            reveal_strlit("\n");
            reveal_strlit("x-acs-action:");
            reveal_strlit("\nx-acs-content-sha256:");
            reveal_strlit("\nx-acs-date:");
            reveal_strlit("\nx-acs-signature-nonce:");
            reveal_strlit("\nx-acs-version:2015-01-09");
            reveal_strlit(
                "\n\nhost;x-acs-action;x-acs-content-sha256;x-acs-date;x-acs-signature-nonce;x-acs-version\n",
            );
            reveal_strlit("ACS3-HMAC-SHA256\n");
            reveal_strlit("ACS3-HMAC-SHA256 Credential=");
            reveal_strlit(
                ", SignedHeaders=host;x-acs-action;x-acs-content-sha256;x-acs-date;x-acs-signature-nonce;x-acs-version, Signature=",
            );
        }
        let empty: Vec<u8> = Vec::new();
        let empty_digest = crate::watcher::crypto::sha256(&empty);
        let empty_hex = crate::watcher::crypto::to_hex(&empty_digest);
        let mut acs = crate::bytes::lit("x-acs-action:");
        crate::bytes::append_bytes(&mut acs, action.as_slice());
        let t1 = crate::bytes::lit("\nx-acs-content-sha256:");
        crate::bytes::append_bytes(&mut acs, t1.as_slice());
        crate::bytes::append_bytes(&mut acs, empty_hex.as_slice());
        let t2 = crate::bytes::lit("\nx-acs-date:");
        crate::bytes::append_bytes(&mut acs, t2.as_slice());
        crate::bytes::append_bytes(&mut acs, date.as_slice());
        let t3 = crate::bytes::lit("\nx-acs-signature-nonce:");
        crate::bytes::append_bytes(&mut acs, t3.as_slice());
        crate::bytes::append_bytes(&mut acs, nonce_hex.as_slice());
        let t4 = crate::bytes::lit("\nx-acs-version:2015-01-09");
        crate::bytes::append_bytes(&mut acs, t4.as_slice());
        proof {
            assert(acs@ =~= acs_headers_text(action@, date@, nonce_hex@));
        }
        let mut canonical = crate::bytes::lit("POST\n/\n");
        crate::bytes::append_bytes(&mut canonical, query.as_slice());
        let h1 = crate::bytes::lit("\nhost:");
        crate::bytes::append_bytes(&mut canonical, h1.as_slice());
        crate::bytes::append_bytes(&mut canonical, self.host.as_slice());
        let h2 = crate::bytes::lit("\n");
        crate::bytes::append_bytes(&mut canonical, h2.as_slice());
        crate::bytes::append_bytes(&mut canonical, acs.as_slice());
        let h3 = crate::bytes::lit(
            "\n\nhost;x-acs-action;x-acs-content-sha256;x-acs-date;x-acs-signature-nonce;x-acs-version\n",
        );
        crate::bytes::append_bytes(&mut canonical, h3.as_slice());
        crate::bytes::append_bytes(&mut canonical, empty_hex.as_slice());
        proof {
            assert(canonical@ =~= canonical_request(self.host@, query@, action@, date@, nonce_hex@));
        }
        let canonical_digest = crate::watcher::crypto::sha256(&canonical);
        let canonical_hex = crate::watcher::crypto::to_hex(&canonical_digest);
        let mut to_sign = crate::bytes::lit("ACS3-HMAC-SHA256\n");
        crate::bytes::append_bytes(&mut to_sign, canonical_hex.as_slice());
        let sig = crate::watcher::crypto::hmac_sha256(&self.secret_key, &to_sign);
        let sig_hex = crate::watcher::crypto::to_hex(&sig);
        let mut auth = crate::bytes::lit("ACS3-HMAC-SHA256 Credential=");
        crate::bytes::append_bytes(&mut auth, self.secret_id.as_slice());
        let a1 = crate::bytes::lit(
            ", SignedHeaders=host;x-acs-action;x-acs-content-sha256;x-acs-date;x-acs-signature-nonce;x-acs-version, Signature=",
        );
        crate::bytes::append_bytes(&mut auth, a1.as_slice());
        crate::bytes::append_bytes(&mut auth, sig_hex.as_slice());
        proof {
            assert(auth@ =~= authorization_of(
                self.secret_id@,
                self.secret_key@,
                self.host@,
                query@,
                action@,
                date@,
                nonce_hex@,
            ));
        }
        auth
    }

    /// The headers one signed request carries, in order: action, API
    /// version, date, the empty body's digest, the nonce, and the ACS3
    /// signature; they exist exactly when the calendar covers `ts`.
    pub fn headers(
        &self,
        action: &Vec<u8>,
        query: &Vec<u8>,
        ts: i64,
        nonce_hex: &Vec<u8>,
    ) -> (r: Option<Vec<(Vec<u8>, Vec<u8>)>>)
        ensures
            r is Some <==> crate::watcher::crypto::unix_in_calendar(ts as int),
            r matches Some(hs) ==> {
                &&& hs@.len() == 6
                &&& hs@[0].0@ == "x-acs-action".spec_bytes() && hs@[0].1@ == action@
                &&& hs@[1].0@ == "x-acs-version".spec_bytes() && hs@[1].1@
                    == "2015-01-09".spec_bytes()
                &&& hs@[2].0@ == "x-acs-date".spec_bytes() && hs@[2].1@ == iso8601_text_of(
                    ts as int,
                )
                &&& hs@[3].0@ == "x-acs-content-sha256".spec_bytes() && hs@[3].1@ == hex_of(
                    sha256_of(Seq::<u8>::empty()),
                )
                &&& hs@[4].0@ == "x-acs-signature-nonce".spec_bytes() && hs@[4].1@ == nonce_hex@
                &&& hs@[5].0@ == "Authorization".spec_bytes() && hs@[5].1@ == authorization_of(
                    self.secret_id@,
                    self.secret_key@,
                    self.host@,
                    query@,
                    action@,
                    iso8601_text_of(ts as int),
                    nonce_hex@,
                )
            },
    {
        proof {
            reveal_strlit("x-acs-action");
            reveal_strlit("x-acs-version");
            reveal_strlit("2015-01-09");
            reveal_strlit("x-acs-date");
            reveal_strlit("x-acs-content-sha256");
            reveal_strlit("x-acs-signature-nonce");
            reveal_strlit("Authorization");
        }
        let date = match request_date(ts) {
            Some(d) => d,
            None => {
                return None;
            },
        };
        let auth = self.sign(action, query, &date, nonce_hex);
        let empty: Vec<u8> = Vec::new();
        let empty_digest = crate::watcher::crypto::sha256(&empty);
        let empty_hex = crate::watcher::crypto::to_hex(&empty_digest);
        let mut hs: Vec<(Vec<u8>, Vec<u8>)> = Vec::new();
        hs.push((crate::bytes::lit("x-acs-action"), crate::bytes::clone_bytes(action.as_slice())));
        hs.push((crate::bytes::lit("x-acs-version"), crate::bytes::lit("2015-01-09")));
        hs.push((crate::bytes::lit("x-acs-date"), date));
        hs.push((crate::bytes::lit("x-acs-content-sha256"), empty_hex));
        hs.push(
            (crate::bytes::lit("x-acs-signature-nonce"), crate::bytes::clone_bytes(
                nonce_hex.as_slice(),
            )),
        );
        hs.push((crate::bytes::lit("Authorization"), auth));
        Some(hs)
    }

    /// Validates metadata for this provider: the shared DNS rules.
    pub fn validate(&self, md: &Metadata) -> (r: Result<(), ValidateError>)
        ensures
            r == crate::watcher::dns::validate_spec(md),
    {
        crate::watcher::dns::validate(md)
    }
}

/// A fresh signature nonce, already hex-encoded: thirty-two hex digits.
/// `None` when the system's randomness source fails.
pub fn make_nonce_hex() -> (r: Option<Vec<u8>>)
    ensures
        r matches Some(v) ==> v@.len() == 32,
{
    let nonce = match crate::watcher::crypto::random_nonce() {
        Some(n) => n,
        None => {
            return None;
        },
    };
    let hexed = crate::watcher::crypto::to_hex(&nonce);
    proof {
        crate::watcher::crypto::lemma_hex_len(nonce@);
    }
    Some(hexed)
}

/// The date header and the signed request date, for unix time `ts`:
/// ISO 8601 at second precision; it exists exactly when the calendar
/// covers `ts`.
pub fn request_date(ts: i64) -> (r: Option<Vec<u8>>)
    ensures
        r is Some <==> crate::watcher::crypto::unix_in_calendar(ts as int),
        r matches Some(v) ==> v@ == iso8601_text_of(ts as int),
{
    crate::watcher::crypto::utc_iso8601_text(ts)
}

/// The query pairs that look a record up: the full domain under `SubDomain`
/// and its type, sorted as the canonical form demands.
pub fn describe_pairs(domain: &Vec<u8>, record_type: &Vec<u8>) -> (r: Vec<(Vec<u8>, Vec<u8>)>)
    ensures
        r@.len() == 2,
        r@[0].0@ == "SubDomain".spec_bytes() && r@[0].1@ == domain@,
        r@[1].0@ == "Type".spec_bytes() && r@[1].1@ == record_type@,
{
    proof {
        reveal_strlit("SubDomain");
        reveal_strlit("Type");
    }
    let mut r: Vec<(Vec<u8>, Vec<u8>)> = Vec::new();
    r.push((crate::bytes::lit("SubDomain"), crate::bytes::clone_bytes(domain.as_slice())));
    r.push((crate::bytes::lit("Type"), crate::bytes::clone_bytes(record_type.as_slice())));
    r
}

/// The query pairs that create a record, sorted as the canonical form
/// demands; an update adds `RecordId` between `RR` and `TTL`.
pub fn record_pairs(record: &Record, record_id: Option<&Vec<u8>>) -> (r: Vec<(Vec<u8>, Vec<u8>)>)
    ensures
        pair_keys(r@) =~~= expected_record_keys(
            record.priority is Some,
            record_id is Some,
            record.ttl is Some,
        ),
        forall|i: int| 0 <= i < r@.len() ==> #[trigger] r@[i].1@ == expected_record_value(
            *record,
            record_id,
            r@[i].0@,
        ),
{
    proof {
        reveal_strlit("DomainName");
        reveal_strlit("Priority");
        reveal_strlit("RR");
        reveal_strlit("RecordId");
        reveal_strlit("TTL");
        reveal_strlit("Type");
        reveal_strlit("Value");
        vstd::string::is_ascii_spec_bytes("DomainName");
        vstd::string::is_ascii_spec_bytes("Priority");
        vstd::string::is_ascii_spec_bytes("RR");
        vstd::string::is_ascii_spec_bytes("RecordId");
        vstd::string::is_ascii_spec_bytes("TTL");
        vstd::string::is_ascii_spec_bytes("Type");
        vstd::string::is_ascii_spec_bytes("Value");
        assert("Priority".spec_bytes()[0] == 80);
        assert("RecordId".spec_bytes()[0] == 82);
        assert("Priority".spec_bytes() != "RecordId".spec_bytes());
    }
    let mut r: Vec<(Vec<u8>, Vec<u8>)> = Vec::new();
    r.push((crate::bytes::lit("DomainName"), crate::bytes::clone_bytes(record.domain_name.as_slice())));
    if let Some(p) = record.priority {
        r.push((crate::bytes::lit("Priority"), crate::bytes::u64_to_dec(p as u64)));
    }
    r.push((crate::bytes::lit("RR"), crate::bytes::clone_bytes(record.rr.as_slice())));
    if let Some(rid) = record_id {
        r.push((crate::bytes::lit("RecordId"), crate::bytes::clone_bytes(rid.as_slice())));
    }
    if let Some(t) = record.ttl {
        r.push((crate::bytes::lit("TTL"), crate::bytes::u64_to_dec(t as u64)));
    }
    r.push((crate::bytes::lit("Type"), crate::bytes::clone_bytes(record.record_type.as_slice())));
    r.push((crate::bytes::lit("Value"), crate::bytes::clone_bytes(record.value.as_slice())));
    proof {
        assert(pair_keys(r@) =~~= expected_record_keys(
            record.priority is Some,
            record_id is Some,
            record.ttl is Some,
        ));
    }
    r
}

/// The keys of a pair list, in order.
pub open spec fn pair_keys(pairs: Seq<(Vec<u8>, Vec<u8>)>) -> Seq<Seq<u8>> {
    pairs.map_values(|p: (Vec<u8>, Vec<u8>)| p.0@)
}

/// The sorted key list of a record request, with the optional keys present
/// exactly when their fields are.
pub open spec fn expected_record_keys(with_priority: bool, with_id: bool, with_ttl: bool) -> Seq<
    Seq<u8>,
> {
    seq!["DomainName".spec_bytes()] + (if with_priority {
        seq!["Priority".spec_bytes()]
    } else {
        Seq::<Seq<u8>>::empty()
    }) + seq!["RR".spec_bytes()] + (if with_id {
        seq!["RecordId".spec_bytes()]
    } else {
        Seq::<Seq<u8>>::empty()
    }) + (if with_ttl {
        seq!["TTL".spec_bytes()]
    } else {
        Seq::<Seq<u8>>::empty()
    }) + seq!["Type".spec_bytes(), "Value".spec_bytes()]
}

/// What a record request says under each key.
pub open spec fn expected_record_value(
    record: Record,
    record_id: Option<&Vec<u8>>,
    key: Seq<u8>,
) -> Seq<u8> {
    if key == "DomainName".spec_bytes() {
        record.domain_name@
    } else if key == "Priority".spec_bytes() {
        dec_digits(record.priority->0 as int)
    } else if key == "RR".spec_bytes() {
        record.rr@
    } else if key == "RecordId".spec_bytes() {
        record_id->0@
    } else if key == "TTL".spec_bytes() {
        dec_digits(record.ttl->0 as int)
    } else if key == "Type".spec_bytes() {
        record.record_type@
    } else if key == "Value".spec_bytes() {
        record.value@
    } else {
        Seq::<u8>::empty()
    }
}

/// What one address update sends: the record carrying the substituted
/// value, and the record id from the metadata when one is pinned.
pub fn update_record_plan(md: &Metadata, addr: &MappedAddress) -> (r: Result<
    (Record, Option<Vec<u8>>),
    ValidateError,
>)
    ensures
        md.domain is None ==> (r matches Err(e) && e == ValidateError::MissingDomain),
        md.domain is Some && md.kind is None ==> (r matches Err(e) && e
            == ValidateError::MissingType),
        md.domain is Some && md.kind is Some && !crate::watcher::dns::domain_ok(md.domain->0@) ==> (
        r matches Err(e) && e == ValidateError::InvalidDomain),
        md.domain is Some && md.kind is Some && crate::watcher::dns::domain_ok(md.domain->0@) ==> r
            is Ok,
        r matches Ok(p) ==> {
            &&& p.0.domain_name@ == crate::watcher::dns::sld_of(md.domain->0@)
            &&& p.0.rr@ == (if crate::watcher::dns::subdomain_of(md.domain->0@).len() == 0 {
                "@".spec_bytes()
            } else {
                crate::watcher::dns::subdomain_of(md.domain->0@)
            })
            &&& p.0.record_type@ == md.kind->0@
            &&& p.0.value@ == crate::watcher::formatted(md.value@, *addr)
            &&& p.0.priority == md.priority
            &&& p.0.ttl == md.ttl
            &&& (match md.rid {
                Some(rid) => p.1 matches Some(v) && v@ == rid@,
                None => p.1 is None,
            })
        },
{
    let domain = match &md.domain {
        Some(d) => d,
        None => {
            return Err(ValidateError::MissingDomain);
        },
    };
    let kind = match &md.kind {
        Some(k) => k,
        None => {
            return Err(ValidateError::MissingType);
        },
    };
    let (sld, sub) = match crate::watcher::dns::split_domain_name(domain) {
        Some(p) => p,
        None => {
            return Err(ValidateError::InvalidDomain);
        },
    };
    let record_id = match &md.rid {
        Some(rid) => Some(crate::bytes::clone_bytes(rid.as_slice())),
        None => None,
    };
    let record = Record {
        domain_name: sld,
        rr: crate::watcher::dns::subdomain_or_at(sub),
        record_type: crate::bytes::clone_bytes(kind.as_slice()),
        value: crate::watcher::format_value(&md.value, addr),
        priority: md.priority,
        ttl: md.ttl,
    };
    Ok((record, record_id))
}

/// A successful response names no code; a failing one is its code, with the
/// provider's message or a pointer at the documentation.
pub struct BaseResponse {
    /// The provider's request id, echoed for tracing.
    pub request_id: Vec<u8>,
    /// The error code a failing response carries.
    pub code: Option<Vec<u8>>,
    /// The error message a failing response may carry.
    pub message: Option<Vec<u8>>,
}

impl BaseResponse {
    /// Ok exactly when the response carries no code.
    pub fn success(&self) -> (r: Result<(), ApiError>)
        ensures
            r is Ok <==> self.code is None,
            r matches Err(e) ==> (self.code matches Some(c) && e.code@ == c@ && e.message@ == (
            match self.message {
                Some(m) => m@,
                None => "Please refer to the API documentation.".spec_bytes(),
            })),
    {
        proof {
            reveal_strlit("Please refer to the API documentation.");
        }
        match &self.code {
            None => Ok(()),
            Some(c) => Err(
                ApiError {
                    code: crate::bytes::clone_bytes(c.as_slice()),
                    message: match &self.message {
                        Some(m) => crate::bytes::clone_bytes(m.as_slice()),
                        None => crate::bytes::lit("Please refer to the API documentation."),
                    },
                },
            ),
        }
    }
}

/// Reads a create or update response: the error wins, a missing record id
/// is its own failure, and the created or updated record's id comes back.
pub fn record_result(resp: &BaseResponse, record_id: Option<Vec<u8>>) -> (r: Result<
    Vec<u8>,
    WatcherError,
>)
    ensures
        resp.code matches Some(c) ==> (r matches Err(w) && w matches WatcherError::Api(x)
            && x.code@ == c@),
        resp.code is None && record_id is None ==> r == Err::<Vec<u8>, WatcherError>(
            WatcherError::MissingRecordId,
        ),
        resp.code is None ==> (record_id matches Some(v) ==> r matches Ok(o) && o@ == v@),
{
    match resp.success() {
        Ok(_) => (),
        Err(e) => {
            return Err(WatcherError::Api(e));
        },
    }
    match record_id {
        Some(v) => Ok(v),
        None => Err(WatcherError::MissingRecordId),
    }
}

/// Reads a record-list response: an error wins, and the first listed
/// record's id comes back otherwise.
pub fn record_lookup_result(resp: &BaseResponse, record_ids: &Vec<Vec<u8>>) -> (r: Result<
    Option<Vec<u8>>,
    ApiError,
>)
    ensures
        resp.code is None ==> (match r {
            Ok(Some(v)) => record_ids@.len() > 0 && v@ == record_ids@[0]@,
            Ok(None) => record_ids@.len() == 0,
            Err(_) => false,
        }),
        resp.code is Some ==> r is Err,
{
    match resp.success() {
        Ok(_) => (),
        Err(e) => {
            return Err(e);
        },
    }
    if record_ids.len() > 0 {
        Ok(Some(crate::bytes::clone_bytes(record_ids[0].as_slice())))
    } else {
        Ok(None)
    }
}

} // verus!
