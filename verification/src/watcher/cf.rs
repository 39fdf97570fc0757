//! The Cloudflare provider: record-type rules, the record payload shapes,
//! and the `priority weight port target` and `target k=v...` value grammars
//! of the SRV and SVCB record types. The REST transport runs outside.

use crate::bytes::{
    all_digits, dec_value, split_seq, to_ascii_upper, trimmed, views,
};
use crate::client::{Ipv4Octets, MappedAddress};
use crate::config::Metadata;
use crate::watcher::dns::ValidateError;
use vstd::prelude::*;
use vstd::string::StringSliceAdditionalSpecFns;

verus! {

/// [Cloudflare](https://www.cloudflare.com).
pub struct Cloudflare {
    /// Instance name.
    pub name: Vec<u8>,
    /// API token.
    pub token: Vec<u8>,
}

/// What every record sends, whatever its type.
pub struct Record {
    /// The record's name: the subdomain, written `@` when empty.
    pub name: Vec<u8>,
    /// Serve the record through the provider's proxy.
    pub proxied: bool,
    /// Record type.
    pub record_type: Vec<u8>,
    /// Record priority.
    pub priority: Option<u16>,
    /// Record TTL.
    pub ttl: Option<u32>,
}

/// An SRV record's data: `priority weight port target`.
pub struct Srv {
    pub port: u16,
    pub priority: u16,
    pub target: Vec<u8>,
    pub weight: u16,
}

/// An SVCB or HTTPS record's data: a target and its parameter list.
pub struct Svcb {
    pub priority: u16,
    pub target: Vec<u8>,
    pub value: Vec<u8>,
}

/// The type-specific part of a record.
pub enum RecordData {
    /// A plain record: the substituted value as content.
    Plain(Vec<u8>),
    /// An SRV record, parsed from the substituted value.
    Srv(Srv),
    /// An SVCB or HTTPS record, parsed from the substituted value.
    Svcb(Svcb),
    /// A URI record: the substituted value as target, weight zero.
    Uri(Vec<u8>),
}

/// The non-empty space-separated fields of `s`.
pub open spec fn space_fields(s: Seq<u8>) -> Seq<Seq<u8>> {
    split_seq(s, 32).filter(|p: Seq<u8>| p.len() > 0)
}

/// A field parses as a sixteen-bit number.
pub open spec fn is_u16(s: Seq<u8>) -> bool {
    s.len() > 0 && all_digits(s) && dec_value(s) <= u16::MAX
}

/// A well-formed SRV value: exactly four fields, the first three numeric.
pub open spec fn srv_ok(s: Seq<u8>) -> bool {
    let fs = space_fields(s);
    fs.len() == 4 && is_u16(fs[0]) && is_u16(fs[1]) && is_u16(fs[2])
}

/// The first space of `s` stands at `i`.
pub open spec fn first_space_at(s: Seq<u8>, i: int) -> bool {
    0 <= i < s.len() && s[i] == 32 && (forall|k: int| 0 <= k < i ==> s[k] != 32)
}

/// A well-formed SVCB value: once trimmed, a target and, after the first
/// space, a parameter list.
pub open spec fn svcb_ok(s: Seq<u8>) -> bool {
    exists|i: int| first_space_at(trimmed(s), i)
}

/// The non-empty space-separated fields of `s`.
pub fn split_space_fields(s: &Vec<u8>) -> (r: Vec<Vec<u8>>)
    ensures
        views(r@) == space_fields(s@),
{
    let parts = crate::bytes::split_bytes(s.as_slice(), 32);
    let mut out: Vec<Vec<u8>> = Vec::new();
    let mut i: usize = 0;
    proof {
        reveal(Seq::filter);
        assert(views(parts@).take(0) =~~= Seq::<Seq<u8>>::empty());
        assert(views(out@) =~~= views(parts@).take(0).filter(|p: Seq<u8>| p.len() > 0));
    }
    while i < parts.len()
        invariant
            i <= parts@.len(),
            views(out@) == views(parts@).take(i as int).filter(|p: Seq<u8>| p.len() > 0),
        decreases parts.len() - i,
    {
        let ghost before = out@;
        if parts[i].len() > 0 {
            out.push(crate::bytes::clone_bytes(parts[i].as_slice()));
            proof {
                assert(views(out@) =~~= views(before).push(parts@[i as int]@));
            }
        }
        proof {
            reveal(Seq::filter);
            let pred = |p: Seq<u8>| p.len() > 0;
            assert(views(parts@).take(i + 1).drop_last() =~~= views(parts@).take(i as int));
            assert(views(parts@).take(i + 1).last() == parts@[i as int]@);
            if parts@[i as int]@.len() > 0 {
                assert(views(out@) =~~= views(parts@).take(i as int).filter(pred).push(
                    parts@[i as int]@,
                ));
            }
        }
        i = i + 1;
    }
    proof {
        assert(views(parts@).take(parts@.len() as int) =~~= views(parts@));
    }
    out
}

/// Reads a decimal sixteen-bit number.
pub fn parse_u16(s: &[u8]) -> (r: Option<u16>)
    ensures
        r is Some <==> is_u16(s@),
        r matches Some(v) ==> v == dec_value(s@),
{
    match crate::bytes::parse_u64(s) {
        Some(v) => if v <= u16::MAX as u64 {
            Some(v as u16)
        } else {
            None
        },
        None => None,
    }
}

/// Parses an SRV value, `priority weight port target`, for example
/// `0 5 5060 www.example.com`. Fails exactly when the shape or a number is
/// off.
pub fn parse_srv(value: &Vec<u8>) -> (r: Result<Srv, ValidateError>)
    ensures
        r is Ok <==> srv_ok(value@),
        r matches Ok(v) ==> {
            let fs = space_fields(value@);
            &&& v.priority == dec_value(fs[0])
            &&& v.weight == dec_value(fs[1])
            &&& v.port == dec_value(fs[2])
            &&& v.target@ == fs[3]
        },
        r matches Err(e) ==> e == ValidateError::InvalidValue,
{
    let fields = split_space_fields(value);
    if fields.len() != 4 {
        return Err(ValidateError::InvalidValue);
    }
    let priority = match parse_u16(fields[0].as_slice()) {
        Some(v) => v,
        None => {
            return Err(ValidateError::InvalidValue);
        },
    };
    let weight = match parse_u16(fields[1].as_slice()) {
        Some(v) => v,
        None => {
            return Err(ValidateError::InvalidValue);
        },
    };
    let port = match parse_u16(fields[2].as_slice()) {
        Some(v) => v,
        None => {
            return Err(ValidateError::InvalidValue);
        },
    };
    let target = crate::bytes::clone_bytes(fields[3].as_slice());
    Ok(Srv { port, priority, target, weight })
}

/// Parses an SVCB value, `target key-value-pairs`, for example
/// `www.example.com alpn="h2" port="443"`. Fails exactly when no space
/// splits a target from the parameters.
pub fn parse_svcb(priority: u16, value: &Vec<u8>) -> (r: Result<Svcb, ValidateError>)
    ensures
        r is Ok <==> svcb_ok(value@),
        r matches Ok(v) ==> v.priority == priority && (exists|i: int|
            {
                &&& first_space_at(trimmed(value@), i)
                &&& v.target@ == trimmed(value@).take(i)
                &&& v.value@ == trimmed(trimmed(value@).skip(i + 1))
            }),
        r matches Err(e) ==> e == ValidateError::InvalidValue,
{
    let t = crate::bytes::trim_bytes(value.as_slice());
    let i = match crate::bytes::find_byte(t.as_slice(), 32) {
        Some(i) => i,
        None => {
            proof {
                assert(forall|k: int| 0 <= k < trimmed(value@).len() ==> !first_space_at(
                    trimmed(value@),
                    k,
                ));
            }
            return Err(ValidateError::InvalidValue);
        },
    };
    let mut target: Vec<u8> = Vec::new();
    let mut k: usize = 0;
    while k < i
        invariant
            k <= i,
            i < t@.len(),
            target@ =~= t@.take(k as int),
        decreases i - k,
    {
        target.push(t[k]);
        proof {
            assert(target@ =~= t@.take(k + 1));
        }
        k = k + 1;
    }
    let mut rest: Vec<u8> = Vec::new();
    let tl = t.len();
    proof {
        assert(i < tl);
    }
    let mut m: usize = i + 1;
    while m < t.len()
        invariant
            i + 1 <= m <= t@.len(),
            rest@ =~= t@.subrange(i + 1, m as int),
        decreases t.len() - m,
    {
        rest.push(t[m]);
        proof {
            assert(rest@ =~= t@.subrange(i + 1, m + 1));
        }
        m = m + 1;
    }
    proof {
        assert(rest@ =~= t@.skip(i + 1));
        assert(first_space_at(trimmed(value@), i as int));
    }
    let pairs = crate::bytes::trim_bytes(rest.as_slice());
    Ok(Svcb { priority, target, value: pairs })
}

/// True of the record types this provider accepts.
pub open spec fn supported_type(upper: Seq<u8>) -> bool {
    ||| upper == "A".spec_bytes()
    ||| upper == "AAAA".spec_bytes()
    ||| upper == "CNAME".spec_bytes()
    ||| upper == "HTTPS".spec_bytes()
    ||| upper == "MX".spec_bytes()
    ||| upper == "SRV".spec_bytes()
    ||| upper == "SVCB".spec_bytes()
    ||| upper == "TXT".spec_bytes()
    ||| upper == "URI".spec_bytes()
}

/// The address the startup dry-run substitutes: `1.1.1.1:1111`.
pub open spec fn example_addr() -> MappedAddress {
    MappedAddress { ip: Ipv4Octets { a: 1, b: 1, c: 1, d: 1 }, port: 1111 }
}

/// What validating metadata for this provider yields: the shared DNS rules,
/// then the type whitelist, the URI priority rule, and a dry-run parse of
/// the value template against `1.1.1.1:1111`.
pub open spec fn validate_spec(md: &Metadata) -> Result<(), ValidateError> {
    match crate::watcher::dns::validate_spec(md) {
        Err(e) => Err(e),
        Ok(_) => {
            let upper = to_ascii_upper(md.kind->0@);
            let example = crate::watcher::formatted(md.value@, example_addr());
            if !supported_type(upper) {
                Err(ValidateError::UnsupportedType)
            } else if upper == "URI".spec_bytes() && md.priority is None {
                Err(ValidateError::MissingPriority)
            } else if upper == "SRV".spec_bytes() && !srv_ok(example) {
                Err(ValidateError::InvalidValue)
            } else if (upper == "HTTPS".spec_bytes() || upper == "SVCB".spec_bytes()) && !svcb_ok(
                example,
            ) {
                Err(ValidateError::InvalidValue)
            } else {
                Ok(())
            }
        },
    }
}

/// An error the provider's API reported.
#[derive(Debug, Clone, PartialEq, Eq)]
pub struct Error {
    /// The provider's numeric error code.
    pub code: i64,
    /// The provider's error message.
    pub message: Vec<u8>,
}

/// An answer from the provider's API.
pub struct Response<T> {
    /// The errors a failing answer carries.
    pub errors: Vec<Error>,
    /// Whether the call succeeded.
    pub success: bool,
    /// The payload of a successful answer.
    pub result: Option<T>,
}

/// Why a call against this provider failed.
#[derive(Debug, PartialEq, Eq)]
pub enum CfError {
    /// The API reported this error.
    Api { code: i64, message: Vec<u8> },
    /// The API reported failure without naming an error.
    Unknown,
    /// The account holds no zone of the requested domain.
    ZoneNotFound,
    /// The answer names no record id.
    MissingRecordId,
}

impl<T> Response<T> {
    /// Ok exactly when the answer reports success; a failure carries the
    /// first reported error, or stands unexplained.
    pub fn success(&self) -> (r: Result<(), CfError>)
        ensures
            r is Ok <==> self.success,
            !self.success && self.errors@.len() > 0 ==> (r matches Err(e) && e matches
                CfError::Api { code, message } && code == self.errors@[0].code && message@
                == self.errors@[0].message@),
            !self.success && self.errors@.len() == 0 ==> (r matches Err(e) && e is Unknown),
    {
        if self.success {
            Ok(())
        } else if self.errors.len() > 0 {
            Err(
                CfError::Api {
                    code: self.errors[0].code,
                    message: crate::bytes::clone_bytes(self.errors[0].message.as_slice()),
                },
            )
        } else {
            Err(CfError::Unknown)
        }
    }
}

/// Reads a zone-list answer: the first zone's id, or the complaint that the
/// account holds no such zone.
pub fn zone_lookup_result(resp: &Response<Vec<Vec<u8>>>) -> (r: Result<Vec<u8>, CfError>)
    ensures
        !resp.success ==> r is Err,
        resp.success ==> (match r {
            Ok(id) => resp.result matches Some(zones) && zones@.len() > 0 && id@ == zones@[0]@,
            Err(e) => e is ZoneNotFound && (match resp.result {
                Some(zones) => zones@.len() == 0,
                None => true,
            }),
        }),
{
    match resp.success() {
        Ok(_) => (),
        Err(e) => {
            return Err(e);
        },
    }
    match &resp.result {
        Some(zones) => {
            if zones.len() > 0 {
                Ok(crate::bytes::clone_bytes(zones[0].as_slice()))
            } else {
                Err(CfError::ZoneNotFound)
            }
        },
        None => Err(CfError::ZoneNotFound),
    }
}

/// Reads a record-list answer: the first record's id, when one is listed.
pub fn record_lookup_result(resp: &Response<Vec<Vec<u8>>>) -> (r: Result<Option<Vec<u8>>, CfError>)
    ensures
        !resp.success ==> r is Err,
        resp.success ==> (match r {
            Ok(Some(id)) => resp.result matches Some(ids) && ids@.len() > 0 && id@ == ids@[0]@,
            Ok(None) => (match resp.result {
                Some(ids) => ids@.len() == 0,
                None => true,
            }),
            Err(_) => false,
        }),
{
    match resp.success() {
        Ok(_) => (),
        Err(e) => {
            return Err(e);
        },
    }
    match &resp.result {
        Some(ids) => {
            if ids.len() > 0 {
                Ok(Some(crate::bytes::clone_bytes(ids[0].as_slice())))
            } else {
                Ok(None)
            }
        },
        None => Ok(None),
    }
}

/// Reads a create or update answer: the created or updated record's id.
pub fn record_result(resp: &Response<Vec<u8>>) -> (r: Result<Vec<u8>, CfError>)
    ensures
        !resp.success ==> r is Err,
        resp.success ==> (match r {
            Ok(id) => resp.result matches Some(x) && id@ == x@,
            Err(e) => e is MissingRecordId && resp.result is None,
        }),
{
    match resp.success() {
        Ok(_) => (),
        Err(e) => {
            return Err(e);
        },
    }
    match &resp.result {
        Some(id) => Ok(crate::bytes::clone_bytes(id.as_slice())),
        None => Err(CfError::MissingRecordId),
    }
}

/// Everything one address update sends to this provider.
pub struct UpdatePlan {
    /// The second-level domain, whose zone is looked up.
    pub zone_domain: Vec<u8>,
    /// The full domain the record lookup filters on.
    pub lookup_domain: Vec<u8>,
    /// What every record sends.
    pub record: Record,
    /// The type-specific payload.
    pub data: RecordData,
    /// The record id from the metadata, when one is pinned.
    pub record_id: Option<Vec<u8>>,
}

impl Cloudflare {
    /// A Cloudflare watcher holding its API token.
    pub fn new(name: Vec<u8>, token: Vec<u8>) -> (r: Cloudflare)
        ensures
            r.name == name,
            r.token == token,
    {
        Cloudflare { name, token }
    }

    /// The watcher's kind tag.
    pub fn kind(&self) -> (r: Vec<u8>)
        ensures
            r@ == "cf".spec_bytes(),
    {
        proof {
            reveal_strlit("cf");
        }
        crate::bytes::lit("cf")
    }

    /// Validates metadata for this provider: the shared DNS rules, the
    /// record-type whitelist, the URI priority rule, and a dry-run parse of
    /// the value template against `1.1.1.1:1111`.
    pub fn validate(&self, md: &Metadata) -> (r: Result<(), ValidateError>)
        ensures
            r == validate_spec(md),
    {
        proof {
            reveal_strlit("A");
            reveal_strlit("AAAA");
            reveal_strlit("CNAME");
            reveal_strlit("HTTPS");
            reveal_strlit("MX");
            reveal_strlit("SRV");
            reveal_strlit("SVCB");
            reveal_strlit("TXT");
            reveal_strlit("URI");
        }
        match crate::watcher::dns::validate(md) {
            Ok(_) => (),
            Err(e) => {
                return Err(e);
            },
        }
        let kind = match &md.kind {
            Some(k) => k,
            None => {
                return Err(ValidateError::MissingType);
            },
        };
        let upper = crate::bytes::ascii_upper(kind.as_slice());
        let supported = crate::bytes::bytes_eq(upper.as_slice(), crate::bytes::lit("A").as_slice())
            || crate::bytes::bytes_eq(upper.as_slice(), crate::bytes::lit("AAAA").as_slice())
            || crate::bytes::bytes_eq(upper.as_slice(), crate::bytes::lit("CNAME").as_slice())
            || crate::bytes::bytes_eq(upper.as_slice(), crate::bytes::lit("HTTPS").as_slice())
            || crate::bytes::bytes_eq(upper.as_slice(), crate::bytes::lit("MX").as_slice())
            || crate::bytes::bytes_eq(upper.as_slice(), crate::bytes::lit("SRV").as_slice())
            || crate::bytes::bytes_eq(upper.as_slice(), crate::bytes::lit("SVCB").as_slice())
            || crate::bytes::bytes_eq(upper.as_slice(), crate::bytes::lit("TXT").as_slice())
            || crate::bytes::bytes_eq(upper.as_slice(), crate::bytes::lit("URI").as_slice());
        if !supported {
            return Err(ValidateError::UnsupportedType);
        }
        if crate::bytes::bytes_eq(upper.as_slice(), crate::bytes::lit("URI").as_slice())
            && md.priority.is_none() {
            return Err(ValidateError::MissingPriority);
        }
        let example = MappedAddress { ip: Ipv4Octets { a: 1, b: 1, c: 1, d: 1 }, port: 1111 };
        let example_value = crate::watcher::format_value(&md.value, &example);
        if crate::bytes::bytes_eq(upper.as_slice(), crate::bytes::lit("SRV").as_slice()) {
            match parse_srv(&example_value) {
                Ok(_) => (),
                Err(e) => {
                    return Err(e);
                },
            }
        }
        if crate::bytes::bytes_eq(upper.as_slice(), crate::bytes::lit("HTTPS").as_slice())
            || crate::bytes::bytes_eq(upper.as_slice(), crate::bytes::lit("SVCB").as_slice()) {
            match parse_svcb(0, &example_value) {
                Ok(_) => (),
                Err(e) => {
                    return Err(e);
                },
            }
        }
        Ok(())
    }

    /// What one address update sends: the zone and record lookups, the
    /// record, and its type-specific payload, the value parsed as the type
    /// demands. Succeeds exactly when the metadata names a domain that
    /// splits and a type, the type's priority rule holds, and the
    /// substituted value obeys the type's grammar.
    pub fn update_plan(&self, md: &Metadata, addr: &MappedAddress) -> (r: Result<
        UpdatePlan,
        ValidateError,
    >)
        ensures
            md.domain is None ==> (r matches Err(e) && e == ValidateError::MissingDomain),
            md.domain is Some && md.kind is None ==> (r matches Err(e) && e
                == ValidateError::MissingType),
            md.domain is Some && md.kind is Some && !crate::watcher::dns::domain_ok(md.domain->0@)
                ==> (r matches Err(e) && e == ValidateError::InvalidDomain),
            md.domain is Some && md.kind is Some && crate::watcher::dns::domain_ok(md.domain->0@)
                ==> {
                let upper = to_ascii_upper(md.kind->0@);
                let value = crate::watcher::formatted(md.value@, *addr);
                if upper == "HTTPS".spec_bytes() || upper == "SVCB".spec_bytes() {
                    if md.priority is None {
                        r matches Err(e) && e == ValidateError::MissingPriority
                    } else if !svcb_ok(value) {
                        r matches Err(e) && e == ValidateError::InvalidValue
                    } else {
                        r is Ok
                    }
                } else if upper == "SRV".spec_bytes() {
                    if srv_ok(value) {
                        r is Ok
                    } else {
                        r matches Err(e) && e == ValidateError::InvalidValue
                    }
                } else {
                    r is Ok
                }
            },
            r matches Ok(p) ==> {
                let upper = to_ascii_upper(md.kind->0@);
                let value = crate::watcher::formatted(md.value@, *addr);
                &&& md.domain is Some
                &&& md.kind is Some
                &&& crate::watcher::dns::domain_ok(md.domain->0@)
                &&& p.zone_domain@ == crate::watcher::dns::sld_of(md.domain->0@)
                &&& p.lookup_domain@ == md.domain->0@
                &&& p.record.name@ == (if crate::watcher::dns::subdomain_of(md.domain->0@).len()
                    == 0 {
                    "@".spec_bytes()
                } else {
                    crate::watcher::dns::subdomain_of(md.domain->0@)
                })
                &&& p.record.proxied == (md.proxied matches Some(true))
                &&& p.record.record_type@ == md.kind->0@
                &&& p.record.priority == md.priority
                &&& p.record.ttl == md.ttl
                &&& (match md.rid {
                    Some(rid) => p.record_id matches Some(v) && v@ == rid@,
                    None => p.record_id is None,
                })
                &&& (if upper == "HTTPS".spec_bytes() || upper == "SVCB".spec_bytes() {
                    p.data matches RecordData::Svcb(s) && s.priority == md.priority->0 && (
                    exists|i: int|
                        {
                            &&& first_space_at(trimmed(value), i)
                            &&& s.target@ == trimmed(value).take(i)
                            &&& s.value@ == trimmed(trimmed(value).skip(i + 1))
                        })
                } else if upper == "SRV".spec_bytes() {
                    p.data matches RecordData::Srv(s) && {
                        let fs = space_fields(value);
                        &&& s.priority == dec_value(fs[0])
                        &&& s.weight == dec_value(fs[1])
                        &&& s.port == dec_value(fs[2])
                        &&& s.target@ == fs[3]
                    }
                } else if upper == "URI".spec_bytes() {
                    p.data matches RecordData::Uri(t) && t@ == value
                } else {
                    p.data matches RecordData::Plain(c) && c@ == value
                })
            },
    {
        proof {
            reveal_strlit("HTTPS");
            reveal_strlit("SRV");
            reveal_strlit("SVCB");
            reveal_strlit("URI");
        }
        let domain = match &md.domain {
            Some(d) => d,
            None => {
                return Err(ValidateError::MissingDomain);
            },
        };
        let kind = match &md.kind {
            Some(k) => k,
            None => {
                return Err(ValidateError::MissingType);
            },
        };
        let (sld, sub) = match crate::watcher::dns::split_domain_name(domain) {
            Some(p) => p,
            None => {
                return Err(ValidateError::InvalidDomain);
            },
        };
        let record_id = match &md.rid {
            Some(rid) => Some(crate::bytes::clone_bytes(rid.as_slice())),
            None => None,
        };
        let proxied = match md.proxied {
            Some(p) => p,
            None => false,
        };
        let record = Record {
            name: crate::watcher::dns::subdomain_or_at(sub),
            proxied,
            record_type: crate::bytes::clone_bytes(kind.as_slice()),
            priority: md.priority,
            ttl: md.ttl,
        };
        let value = crate::watcher::format_value(&md.value, addr);
        let upper = crate::bytes::ascii_upper(kind.as_slice());
        let data = if crate::bytes::bytes_eq(upper.as_slice(), crate::bytes::lit("HTTPS").as_slice())
            || crate::bytes::bytes_eq(upper.as_slice(), crate::bytes::lit("SVCB").as_slice()) {
            let priority = match md.priority {
                Some(p) => p,
                None => {
                    return Err(ValidateError::MissingPriority);
                },
            };
            match parse_svcb(priority, &value) {
                Ok(s) => RecordData::Svcb(s),
                Err(e) => {
                    return Err(e);
                },
            }
        } else if crate::bytes::bytes_eq(upper.as_slice(), crate::bytes::lit("SRV").as_slice()) {
            match parse_srv(&value) {
                Ok(s) => RecordData::Srv(s),
                Err(e) => {
                    return Err(e);
                },
            }
        } else if crate::bytes::bytes_eq(upper.as_slice(), crate::bytes::lit("URI").as_slice()) {
            RecordData::Uri(value)
        } else {
            RecordData::Plain(value)
        };
        Ok(
            UpdatePlan {
                zone_domain: sld,
                lookup_domain: crate::bytes::clone_bytes(domain.as_slice()),
                record,
                data,
                record_id,
            },
        )
    }
}

} // verus!
