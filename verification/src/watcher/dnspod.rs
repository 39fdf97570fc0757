//! The DNSPod provider: TC3-HMAC-SHA256 request signing, record payloads
//! and response interpretation. The HTTP transport runs outside; the bytes
//! it signs with, sends and reads back are built and judged here.

use crate::bytes::{dec_digits, to_ascii_lower};
use crate::client::MappedAddress;
use crate::config::Metadata;
use crate::watcher::crypto::{date_text_of, hex_of, hmac_sha256_of, sha256_of};
use crate::watcher::dns::ValidateError;
use crate::watcher::{ApiError, WatcherError};
use vstd::prelude::*;
use vstd::string::StringSliceAdditionalSpecFns;

verus! {

/// [DNSPod](https://www.dnspod.cn).
pub struct DnsPod {
    /// Instance name.
    pub name: Vec<u8>,
    /// Request url.
    pub url: Vec<u8>,
    /// Similar to a username.
    pub secret_id: Vec<u8>,
    /// Similar to a password.
    pub secret_key: Vec<u8>,
}

/// A DNS record as the provider's API takes it.
pub struct Record {
    /// The second-level domain the record lives under.
    pub domain: Vec<u8>,
    /// The subdomain, written `@` when empty.
    pub subdomain: Vec<u8>,
    /// Record type.
    pub record_type: Vec<u8>,
    /// Record value, tokens already substituted.
    pub value: Vec<u8>,
    /// MX priority.
    pub mx: Option<u16>,
    /// Record TTL.
    pub ttl: Option<u32>,
}

/// Everything one address update needs from the metadata: the split domain,
/// the record to send, and the record id when the metadata pins one.
pub struct UpdatePlan {
    /// The second-level domain, as the list call wants it.
    pub domain: Vec<u8>,
    /// The subdomain, possibly empty, as the list call wants it.
    pub subdomain: Vec<u8>,
    /// The record to create or update.
    pub record: Record,
    /// The record id from the metadata, when given.
    pub record_id: Option<u64>,
}

/// The record line the provider demands for the default line, as UTF-8.
pub open spec fn spec_record_line() -> Seq<u8> {
    seq![0xe9u8, 0xbbu8, 0x98u8, 0xe8u8, 0xaeu8, 0xa4u8]
}

/// The provider's default record line, written verbatim as its API demands.
pub fn record_line() -> (r: Vec<u8>)
    ensures
        r@ == spec_record_line(),
{
    let mut r: Vec<u8> = Vec::new();
    r.push(0xe9);
    r.push(0xbb);
    r.push(0x98);
    r.push(0xe8);
    r.push(0xae);
    r.push(0xa4);
    proof {
        assert(r@ =~= spec_record_line());
    }
    r
}

/// The TC3 canonical request: a POST of `payload` to `/` with the fixed
/// signed headers, the action lower-cased.
pub open spec fn canonical_request(action: Seq<u8>, payload: Seq<u8>) -> Seq<u8> {
    "POST\n/\n\ncontent-type:application/json; charset=utf-8\nhost:dnspod.tencentcloudapi.com\nx-tc-action:".spec_bytes()
        + to_ascii_lower(action) + "\n\ncontent-type;host;x-tc-action\n".spec_bytes() + hex_of(
        sha256_of(payload),
    )
}

/// The TC3 string to sign at time `ts`.
pub open spec fn string_to_sign(ts: int, action: Seq<u8>, payload: Seq<u8>) -> Seq<u8> {
    "TC3-HMAC-SHA256\n".spec_bytes() + dec_digits(ts) + "\n".spec_bytes() + date_text_of(ts)
        + "/dnspod/tc3_request\n".spec_bytes() + hex_of(sha256_of(canonical_request(action, payload)))
}

/// The TC3 signature: the string to sign under the derived day key.
pub open spec fn signature_of(secret_key: Seq<u8>, ts: int, action: Seq<u8>, payload: Seq<u8>) -> Seq<u8> {
    hmac_sha256_of(
        hmac_sha256_of(
            hmac_sha256_of(
                hmac_sha256_of("TC3".spec_bytes() + secret_key, date_text_of(ts)),
                "dnspod".spec_bytes(),
            ),
            "tc3_request".spec_bytes(),
        ),
        string_to_sign(ts, action, payload),
    )
}

/// The `Authorization` header value for one signed request.
pub open spec fn authorization_of(
    secret_id: Seq<u8>,
    secret_key: Seq<u8>,
    ts: int,
    action: Seq<u8>,
    payload: Seq<u8>,
) -> Seq<u8> {
    "TC3-HMAC-SHA256 Credential=".spec_bytes() + secret_id + "/".spec_bytes() + date_text_of(ts)
        + "/dnspod/tc3_request, SignedHeaders=content-type;host;x-tc-action, Signature=".spec_bytes()
        + hex_of(signature_of(secret_key, ts, action, payload))
}

impl DnsPod {
    /// A DNSPod watcher aimed at the provider's API host.
    pub fn new(name: Vec<u8>, secret_id: Vec<u8>, secret_key: Vec<u8>) -> (r: DnsPod)
        ensures
            r.name == name,
            r.secret_id == secret_id,
            r.secret_key == secret_key,
            r.url@ == "https://dnspod.tencentcloudapi.com".spec_bytes(),
    {
        proof {
            reveal_strlit("https://dnspod.tencentcloudapi.com");
        }
        DnsPod { name, url: crate::bytes::lit("https://dnspod.tencentcloudapi.com"), secret_id, secret_key }
    }

    /// The watcher's kind tag.
    pub fn kind(&self) -> (r: Vec<u8>)
        ensures
            r@ == "dnspod".spec_bytes(),
    {
        proof {
            reveal_strlit("dnspod");
        }
        crate::bytes::lit("dnspod")
    }

    /// The TC3 signature header for one request, exactly as
    /// `authorization_of` lays it out; it exists exactly when the calendar
    /// covers `ts`.
    pub fn sign(&self, action: &Vec<u8>, payload: &Vec<u8>, ts: i64) -> (r: Option<Vec<u8>>)
        requires
            ts >= 0,
        ensures
            r is Some <==> crate::watcher::crypto::unix_in_calendar(ts as int),
            r matches Some(v) ==> v@ == authorization_of(
                self.secret_id@,
                self.secret_key@,
                ts as int,
                action@,
                payload@,
            ),
    {
        proof {
            reveal_strlit("POST\n/\n\ncontent-type:application/json; charset=utf-8\nhost:dnspod.tencentcloudapi.com\nx-tc-action:");
            reveal_strlit("\n\ncontent-type;host;x-tc-action\n");
            reveal_strlit("TC3-HMAC-SHA256\n");
            reveal_strlit("\n");
            reveal_strlit("/dnspod/tc3_request\n");
            reveal_strlit("TC3");
            reveal_strlit("dnspod");
            reveal_strlit("tc3_request");
            reveal_strlit("TC3-HMAC-SHA256 Credential=");
            reveal_strlit("/");
            reveal_strlit("/dnspod/tc3_request, SignedHeaders=content-type;host;x-tc-action, Signature=");
        }
        let date = match crate::watcher::crypto::utc_date_text(ts) {
            Some(d) => d,
            None => {
                return None;
            },
        };
        let mut canonical = crate::bytes::lit(
            "POST\n/\n\ncontent-type:application/json; charset=utf-8\nhost:dnspod.tencentcloudapi.com\nx-tc-action:",
        );
        let action_lower = crate::bytes::ascii_lower(action.as_slice());
        crate::bytes::append_bytes(&mut canonical, action_lower.as_slice());
        let mid = crate::bytes::lit("\n\ncontent-type;host;x-tc-action\n");
        crate::bytes::append_bytes(&mut canonical, mid.as_slice());
        let payload_digest = crate::watcher::crypto::sha256(payload);
        let payload_hex = crate::watcher::crypto::to_hex(&payload_digest);
        crate::bytes::append_bytes(&mut canonical, payload_hex.as_slice());
        proof {
            assert(canonical@ =~= canonical_request(action@, payload@));
        }
        let mut to_sign = crate::bytes::lit("TC3-HMAC-SHA256\n");
        let ts_text = crate::bytes::u64_to_dec(ts as u64);
        crate::bytes::append_bytes(&mut to_sign, ts_text.as_slice());
        let nl = crate::bytes::lit("\n");
        crate::bytes::append_bytes(&mut to_sign, nl.as_slice());
        crate::bytes::append_bytes(&mut to_sign, date.as_slice());
        let scope = crate::bytes::lit("/dnspod/tc3_request\n");
        crate::bytes::append_bytes(&mut to_sign, scope.as_slice());
        let canonical_digest = crate::watcher::crypto::sha256(&canonical);
        let canonical_hex = crate::watcher::crypto::to_hex(&canonical_digest);
        crate::bytes::append_bytes(&mut to_sign, canonical_hex.as_slice());
        proof {
            assert(to_sign@ =~= string_to_sign(ts as int, action@, payload@));
        }
        let mut key0 = crate::bytes::lit("TC3");
        crate::bytes::append_bytes(&mut key0, self.secret_key.as_slice());
        proof {
            assert(key0@ =~= "TC3".spec_bytes() + self.secret_key@);
        }
        let k1 = crate::watcher::crypto::hmac_sha256(&key0, &date);
        let k2 = crate::watcher::crypto::hmac_sha256(&k1, &crate::bytes::lit("dnspod"));
        let k3 = crate::watcher::crypto::hmac_sha256(&k2, &crate::bytes::lit("tc3_request"));
        let sig = crate::watcher::crypto::hmac_sha256(&k3, &to_sign);
        let sig_hex = crate::watcher::crypto::to_hex(&sig);
        let mut auth = crate::bytes::lit("TC3-HMAC-SHA256 Credential=");
        crate::bytes::append_bytes(&mut auth, self.secret_id.as_slice());
        let slash = crate::bytes::lit("/");
        crate::bytes::append_bytes(&mut auth, slash.as_slice());
        crate::bytes::append_bytes(&mut auth, date.as_slice());
        let tail = crate::bytes::lit(
            "/dnspod/tc3_request, SignedHeaders=content-type;host;x-tc-action, Signature=",
        );
        crate::bytes::append_bytes(&mut auth, tail.as_slice());
        crate::bytes::append_bytes(&mut auth, sig_hex.as_slice());
        proof {
            assert(auth@ =~= authorization_of(
                self.secret_id@,
                self.secret_key@,
                ts as int,
                action@,
                payload@,
            ));
        }
        Some(auth)
    }

    /// The headers one signed request carries, in order: content type, API
    /// version, action, timestamp and the TC3 signature; they exist exactly
    /// when the calendar covers `ts`.
    pub fn headers(&self, action: &Vec<u8>, payload: &Vec<u8>, ts: i64) -> (r: Option<
        Vec<(Vec<u8>, Vec<u8>)>,
    >)
        requires
            ts >= 0,
        ensures
            r is Some <==> crate::watcher::crypto::unix_in_calendar(ts as int),
            r matches Some(hs) ==> {
                &&& hs@.len() == 5
                &&& hs@[0].0@ == "Content-Type".spec_bytes() && hs@[0].1@
                    == "application/json; charset=utf-8".spec_bytes()
                &&& hs@[1].0@ == "X-TC-Version".spec_bytes() && hs@[1].1@
                    == "2021-03-23".spec_bytes()
                &&& hs@[2].0@ == "X-TC-Action".spec_bytes() && hs@[2].1@ == action@
                &&& hs@[3].0@ == "X-TC-Timestamp".spec_bytes() && hs@[3].1@ == dec_digits(
                    ts as int,
                )
                &&& hs@[4].0@ == "Authorization".spec_bytes() && hs@[4].1@ == authorization_of(
                    self.secret_id@,
                    self.secret_key@,
                    ts as int,
                    action@,
                    payload@,
                )
            },
    {
        proof {
            reveal_strlit("Content-Type");
            reveal_strlit("application/json; charset=utf-8");
            reveal_strlit("X-TC-Version");
            reveal_strlit("2021-03-23");
            reveal_strlit("X-TC-Action");
            reveal_strlit("X-TC-Timestamp");
            reveal_strlit("Authorization");
        }
        let auth = match self.sign(action, payload, ts) {
            Some(a) => a,
            None => {
                return None;
            },
        };
        let mut hs: Vec<(Vec<u8>, Vec<u8>)> = Vec::new();
        hs.push(
            (crate::bytes::lit("Content-Type"), crate::bytes::lit("application/json; charset=utf-8")),
        );
        hs.push((crate::bytes::lit("X-TC-Version"), crate::bytes::lit("2021-03-23")));
        hs.push((crate::bytes::lit("X-TC-Action"), crate::bytes::clone_bytes(action.as_slice())));
        hs.push((crate::bytes::lit("X-TC-Timestamp"), crate::bytes::u64_to_dec(ts as u64)));
        hs.push((crate::bytes::lit("Authorization"), auth));
        Some(hs)
    }

    /// What one address update does, read off the metadata: the split
    /// domain, the record carrying the substituted value, and the pinned
    /// record id when the metadata names one. Errors exactly where
    /// validation would.
    pub fn update_plan(&self, md: &Metadata, addr: &MappedAddress) -> (r: Result<
        UpdatePlan,
        ValidateError,
    >)
        ensures
            md.domain is None ==> (r matches Err(e) && e == ValidateError::MissingDomain),
            md.domain is Some && md.kind is None ==> (r matches Err(e) && e
                == ValidateError::MissingType),
            md.domain is Some && md.kind is Some && !crate::watcher::dns::domain_ok(md.domain->0@)
                ==> (r matches Err(e) && e == ValidateError::InvalidDomain),
            r matches Ok(p) ==> {
                &&& md.domain is Some
                &&& md.kind is Some
                &&& crate::watcher::dns::domain_ok(md.domain->0@)
                &&& p.domain@ == crate::watcher::dns::sld_of(md.domain->0@)
                &&& p.subdomain@ == crate::watcher::dns::subdomain_of(md.domain->0@)
                &&& p.record.domain@ == crate::watcher::dns::sld_of(md.domain->0@)
                &&& p.record.subdomain@ == (if crate::watcher::dns::subdomain_of(
                    md.domain->0@,
                ).len() == 0 {
                    "@".spec_bytes()
                } else {
                    crate::watcher::dns::subdomain_of(md.domain->0@)
                })
                &&& p.record.record_type@ == md.kind->0@
                &&& p.record.value@ == crate::watcher::formatted(md.value@, *addr)
                &&& p.record.mx == md.priority
                &&& p.record.ttl == md.ttl
                &&& (match md.rid {
                    Some(rid) => p.record_id matches Some(v) && v == crate::bytes::dec_value(rid@),
                    None => p.record_id is None,
                })
            },
            md.domain is Some && md.kind is Some && crate::watcher::dns::domain_ok(md.domain->0@)
                && (match md.rid {
                Some(rid) => rid@.len() > 0 && crate::bytes::all_digits(rid@)
                    && crate::bytes::dec_value(rid@) <= u64::MAX,
                None => true,
            }) ==> r is Ok,
            md.domain is Some && md.kind is Some && crate::watcher::dns::domain_ok(md.domain->0@)
                && !(match md.rid {
                Some(rid) => rid@.len() > 0 && crate::bytes::all_digits(rid@)
                    && crate::bytes::dec_value(rid@) <= u64::MAX,
                None => true,
            }) ==> (r matches Err(e) && e == ValidateError::InvalidRecordId),
    {
        let domain = match &md.domain {
            Some(d) => d,
            None => {
                return Err(ValidateError::MissingDomain);
            },
        };
        let kind = match &md.kind {
            Some(k) => k,
            None => {
                return Err(ValidateError::MissingType);
            },
        };
        let (sld, sub) = match crate::watcher::dns::split_domain_name(domain) {
            Some(p) => p,
            None => {
                return Err(ValidateError::InvalidDomain);
            },
        };
        let record_id = match &md.rid {
            Some(rid) => match crate::bytes::parse_u64(rid.as_slice()) {
                Some(v) => Some(v),
                None => {
                    return Err(ValidateError::InvalidRecordId);
                },
            },
            None => None,
        };
        let record = Record {
            domain: crate::bytes::clone_bytes(sld.as_slice()),
            subdomain: crate::watcher::dns::subdomain_or_at(crate::bytes::clone_bytes(
                sub.as_slice(),
            )),
            record_type: crate::bytes::clone_bytes(kind.as_slice()),
            value: crate::watcher::format_value(&md.value, addr),
            mx: md.priority,
            ttl: md.ttl,
        };
        Ok(UpdatePlan { domain: sld, subdomain: sub, record, record_id })
    }

    /// Validates metadata for this provider: the shared DNS rules, plus a
    /// numeric record id when one is given.
    pub fn validate(&self, md: &Metadata) -> (r: Result<(), ValidateError>)
        ensures
            r is Ok <==> crate::watcher::dns::validate_spec(md) is Ok && (match md.rid {
                Some(rid) => rid@.len() > 0 && crate::bytes::all_digits(rid@)
                    && crate::bytes::dec_value(rid@) <= u64::MAX,
                None => true,
            }),
    {
        match crate::watcher::dns::validate(md) {
            Ok(_) => (),
            Err(e) => {
                return Err(e);
            },
        }
        match &md.rid {
            Some(rid) => match crate::bytes::parse_u64(rid.as_slice()) {
                Some(_) => Ok(()),
                None => Err(ValidateError::InvalidRecordId),
            },
            None => Ok(()),
        }
    }
}

/// A successful response names no error; a failing one is its error.
pub struct BaseResponse {
    /// The provider's request id, echoed for tracing.
    pub request_id: Vec<u8>,
    /// The error a failing response carries.
    pub error: Option<ApiError>,
}

impl BaseResponse {
    /// Ok exactly when the response carries no error.
    pub fn success(&self) -> (r: Result<(), ApiError>)
        ensures
            r is Ok <==> self.error is None,
            r matches Err(e) ==> (self.error matches Some(x) && e.code@ == x.code@ && e.message@
                == x.message@),
    {
        match &self.error {
            None => Ok(()),
            Some(e) => Err(
                ApiError {
                    code: crate::bytes::clone_bytes(e.code.as_slice()),
                    message: crate::bytes::clone_bytes(e.message.as_slice()),
                },
            ),
        }
    }
}

/// Reads a record-list response: an empty record list is no failure, any
/// other error is, and the first listed record wins.
pub fn record_lookup_result(error: Option<ApiError>, record_ids: &Vec<u64>) -> (r: Result<
    Option<u64>,
    ApiError,
>)
    ensures
        error is None ==> r == Ok::<Option<u64>, ApiError>(
            if record_ids@.len() > 0 {
                Some(record_ids@[0])
            } else {
                None
            },
        ),
        error matches Some(e) ==> {
            if e.code@ == "ResourceNotFound.NoDataOfRecord".spec_bytes() {
                r == Ok::<Option<u64>, ApiError>(
                    if record_ids@.len() > 0 {
                        Some(record_ids@[0])
                    } else {
                        None
                    },
                )
            } else {
                r matches Err(x) && x.code@ == e.code@ && x.message@ == e.message@
            }
        },
{
    proof {
        reveal_strlit("ResourceNotFound.NoDataOfRecord");
    }
    let benign = crate::bytes::lit("ResourceNotFound.NoDataOfRecord");
    match error {
        Some(e) => {
            if !crate::bytes::bytes_eq(e.code.as_slice(), benign.as_slice()) {
                return Err(e);
            }
        },
        None => (),
    }
    if record_ids.len() > 0 {
        Ok(Some(record_ids[0]))
    } else {
        Ok(None)
    }
}

/// Reads a create or update response: the error wins, a missing record id
/// is its own failure, and the created or updated record's id comes back.
pub fn record_result(error: Option<ApiError>, record_id: Option<u64>) -> (r: Result<
    u64,
    WatcherError,
>)
    ensures
        error matches Some(e) ==> (r matches Err(w) && w matches WatcherError::Api(x) && x.code@
            == e.code@ && x.message@ == e.message@),
        error is None && record_id is None ==> r == Err::<u64, WatcherError>(
            WatcherError::MissingRecordId,
        ),
        error is None ==> (record_id matches Some(v) ==> r == Ok::<u64, WatcherError>(v)),
{
    match error {
        Some(e) => Err(WatcherError::Api(e)),
        None => match record_id {
            Some(v) => Ok(v),
            None => Err(WatcherError::MissingRecordId),
        },
    }
}

} // verus!
