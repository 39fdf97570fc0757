//! Domain handling shared by the DNS providers: splitting a name into its
//! second-level domain and subdomain, and validating DNS metadata.

use crate::bytes::{
    join_seq, lemma_join_parts, lemma_join_split, split_seq, to_ascii_lower, views, DOT,
};
use crate::config::Metadata;
use vstd::prelude::*;
use vstd::string::StringSliceAdditionalSpecFns;

verus! {

/// `d` with a single trailing dot stripped.
pub open spec fn stripped(d: Seq<u8>) -> Seq<u8> {
    if d.len() > 0 && d.last() == DOT {
        d.drop_last()
    } else {
        d
    }
}

/// The labels of `d`, after tolerating one trailing dot.
pub open spec fn labels_of(d: Seq<u8>) -> Seq<Seq<u8>> {
    split_seq(stripped(d), DOT)
}

/// A domain a DNS provider accepts: at least two labels, and the last two
/// non-empty.
pub open spec fn domain_ok(d: Seq<u8>) -> bool {
    let ls = labels_of(d);
    &&& ls.len() >= 2
    &&& ls.last().len() > 0
    &&& ls[ls.len() - 2].len() > 0
}

/// The second-level domain of `d`: its last two labels, joined.
pub open spec fn sld_of(d: Seq<u8>) -> Seq<u8> {
    let ls = labels_of(d);
    join_seq(ls.skip(ls.len() - 2), DOT)
}

/// The subdomain of `d`: everything above the second-level domain.
pub open spec fn subdomain_of(d: Seq<u8>) -> Seq<u8> {
    let ls = labels_of(d);
    join_seq(ls.take(ls.len() - 2), DOT)
}

/// Splits a domain name into `(SLD, subdomain)`: the last two labels joined,
/// and whatever stands above them. A single trailing dot is tolerated.
/// `None` when fewer than two labels remain or one of the last two is empty.
pub fn split_domain_name(domain: &Vec<u8>) -> (r: Option<(Vec<u8>, Vec<u8>)>)
    ensures
        r is Some <==> domain_ok(domain@),
        r matches Some(p) ==> p.0@ == sld_of(domain@) && p.1@ == subdomain_of(domain@),
{
    let mut s = crate::bytes::clone_bytes(domain.as_slice());
    if s.len() > 0 && s[s.len() - 1] == DOT {
        let _ = s.pop();
        proof {
            assert(s@ =~= stripped(domain@));
        }
    }
    proof {
        assert(s@ == stripped(domain@));
    }
    let labels = crate::bytes::split_bytes(s.as_slice(), DOT);
    let n = labels.len();
    proof {
        assert(views(labels@) == labels_of(domain@));
        assert(views(labels@).len() == labels@.len());
    }
    if n < 2 {
        return None;
    }
    if labels[n - 1].len() == 0 || labels[n - 2].len() == 0 {
        proof {
            assert(views(labels@).last() == labels@[n - 1]@);
            assert(views(labels@)[n - 2] == labels@[n - 2]@);
        }
        return None;
    }
    proof {
        assert(views(labels@).last() == labels@[n - 1]@);
        assert(views(labels@)[n - 2] == labels@[n - 2]@);
    }
    let mut sld = crate::bytes::clone_bytes(labels[n - 2].as_slice());
    sld.push(DOT);
    crate::bytes::append_bytes(&mut sld, labels[n - 1].as_slice());
    let mut sub_parts: Vec<Vec<u8>> = Vec::new();
    let mut i: usize = 0;
    while i < n - 2
        invariant
            n == labels@.len(),
            n >= 2,
            i <= n - 2,
            views(sub_parts@) =~~= views(labels@).take(i as int),
        decreases n - 2 - i,
    {
        let ghost before = sub_parts@;
        sub_parts.push(crate::bytes::clone_bytes(labels[i].as_slice()));
        proof {
            assert(views(sub_parts@) =~~= views(before).push(labels@[i as int]@));
            assert(views(before).push(labels@[i as int]@) =~~= views(labels@).take(i + 1));
        }
        i = i + 1;
    }
    let sub = crate::bytes::join_bytes(sub_parts.as_slice(), DOT);
    proof {
        let ls = labels_of(domain@);
        let tail = ls.skip(n - 2);
        assert(tail =~~= seq![ls[n - 2], ls[n - 1]]);
        assert(tail.len() == 2);
        assert(tail[0] == ls[n - 2] && tail[1] == ls[n - 1]);
        assert(tail.skip(1) =~~= seq![ls[n - 1]]);
        assert(join_seq(tail, DOT) == tail[0] + seq![DOT] + join_seq(tail.skip(1), DOT));
        assert(sld@ =~= ls[n - 2] + seq![DOT] + ls[n - 1]);
        assert(sub@ == subdomain_of(domain@));
    }
    Some((sld, sub))
}

/// Splitting is exact: the subdomain and the SLD, glued with a dot, give the
/// domain back (stripped of a tolerated trailing dot); when the subdomain is
/// empty and every label is non-empty, the SLD alone is the domain.
pub proof fn lemma_domain_split_law(d: Seq<u8>)
    requires
        domain_ok(d),
        forall|i: int| 0 <= i < labels_of(d).len() ==> labels_of(d)[i].len() > 0,
    ensures
        labels_of(d).len() == 2 ==> subdomain_of(d).len() == 0 && sld_of(d) == stripped(d),
        labels_of(d).len() > 2 ==> subdomain_of(d).len() > 0 && subdomain_of(d) + seq![DOT]
            + sld_of(d) == stripped(d),
{
    let ls = labels_of(d);
    let n = ls.len() as int;
    lemma_join_split(stripped(d), DOT);
    if n == 2 {
        assert(ls.take(0) =~~= Seq::<Seq<u8>>::empty());
        assert(ls.skip(0) =~~= ls);
    } else {
        let head = ls.take(n - 2);
        let tail = ls.skip(n - 2);
        assert(head + tail =~~= ls);
        lemma_join_parts(head, tail, DOT);
        assert(join_seq(head, DOT).len() >= head[0].len());
        assert(head[0] == ls[0]);
    }
}

/// True of the record types that demand an explicit priority.
pub open spec fn needs_priority(kind: Seq<u8>) -> bool {
    ||| to_ascii_lower(kind) == "svcb".spec_bytes()
    ||| to_ascii_lower(kind) == "https".spec_bytes()
    ||| to_ascii_lower(kind) == "uri".spec_bytes()
}

/// Why DNS metadata was rejected.
#[derive(PartialEq, Eq, Clone, Copy, Debug)]
pub enum ValidateError {
    /// The `domain` field is missing.
    MissingDomain,
    /// The `type` field is missing.
    MissingType,
    /// The record type demands a `priority` field and none is given.
    MissingPriority,
    /// The domain does not split into SLD and subdomain.
    InvalidDomain,
    /// The record type is not one the provider accepts.
    UnsupportedType,
    /// The record id is not a number the provider accepts.
    InvalidRecordId,
    /// The value template does not parse as the record type demands.
    InvalidValue,
}

/// What validating DNS metadata yields: the first complaint, in the order
/// the checks run.
pub open spec fn validate_spec(md: &Metadata) -> Result<(), ValidateError> {
    if md.domain is None {
        Err(ValidateError::MissingDomain)
    } else if md.kind is None {
        Err(ValidateError::MissingType)
    } else if needs_priority(md.kind->0@) && md.priority is None {
        Err(ValidateError::MissingPriority)
    } else if !domain_ok(md.domain->0@) {
        Err(ValidateError::InvalidDomain)
    } else {
        Ok(())
    }
}

/// Validates the metadata every DNS provider requires: a domain that splits,
/// a record type, and a priority when the type demands one.
pub fn validate(md: &Metadata) -> (r: Result<(), ValidateError>)
    ensures
        r == validate_spec(md),
{
    proof {
        reveal_strlit("svcb");
        reveal_strlit("https");
        reveal_strlit("uri");
        vstd::string::is_ascii_spec_bytes("svcb");
        vstd::string::is_ascii_spec_bytes("https");
        vstd::string::is_ascii_spec_bytes("uri");
    }
    let domain = match &md.domain {
        Some(d) => d,
        None => {
            return Err(ValidateError::MissingDomain);
        },
    };
    let kind = match &md.kind {
        Some(k) => k,
        None => {
            return Err(ValidateError::MissingType);
        },
    };
    let lower = crate::bytes::ascii_lower(kind.as_slice());
    let svcb = crate::bytes::lit("svcb");
    let https = crate::bytes::lit("https");
    let uri = crate::bytes::lit("uri");
    let needs = crate::bytes::bytes_eq(lower.as_slice(), svcb.as_slice()) || crate::bytes::bytes_eq(
        lower.as_slice(),
        https.as_slice(),
    ) || crate::bytes::bytes_eq(lower.as_slice(), uri.as_slice());
    if needs && md.priority.is_none() {
        return Err(ValidateError::MissingPriority);
    }
    match split_domain_name(domain) {
        Some(_) => Ok(()),
        None => Err(ValidateError::InvalidDomain),
    }
}

/// The subdomain as DNS providers want it written: `@` when it is empty.
pub fn subdomain_or_at(subdomain: Vec<u8>) -> (r: Vec<u8>)
    ensures
        r@ == if subdomain@.len() == 0 {
            "@".spec_bytes()
        } else {
            subdomain@
        },
{
    proof {
        reveal_strlit("@");
    }
    if subdomain.len() == 0 {
        crate::bytes::lit("@")
    } else {
        subdomain
    }
}

} // verus!
