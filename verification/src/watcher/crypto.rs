//! The cryptographic and clock primitives the DNS providers' request
//! signatures rest on: SHA-256 and HMAC-SHA256 from `ring`, hex encoding
//! from `hex`, a random nonce from `ring`, and date formatting from `time`.
//! The signature strings themselves are built and verified in the provider
//! modules.

use vstd::prelude::*;

verus! {

/// The lower-case hex digit for `d`, which must be below sixteen.
pub open spec fn hex_lower_digit(d: int) -> u8 {
    if d < 10 {
        (48 + d) as u8
    } else {
        (87 + d) as u8
    }
}

/// `s` written in lower-case hex, two digits a byte.
pub open spec fn hex_of(s: Seq<u8>) -> Seq<u8>
    decreases s.len(),
{
    if s.len() == 0 {
        Seq::<u8>::empty()
    } else {
        seq![hex_lower_digit(s[0] as int / 16), hex_lower_digit(s[0] as int % 16)] + hex_of(
            s.skip(1),
        )
    }
}

/// Hex encoding writes two digits a byte.
pub proof fn lemma_hex_len(s: Seq<u8>)
    ensures
        hex_of(s).len() == 2 * s.len(),
    decreases s.len(),
{
    if s.len() > 0 {
        lemma_hex_len(s.skip(1));
    }
}

/// Relies on `hex::encode`: each byte becomes its two lower-case hex digits,
/// in order.
#[verifier::external_body]
pub(crate) fn to_hex(data: &Vec<u8>) -> (r: Vec<u8>)
    ensures
        r@ == hex_of(data@),
{
    hex::encode(data).into_bytes()
}

/// The SHA-256 digest of `data`.
pub uninterp spec fn sha256_of(data: Seq<u8>) -> Seq<u8>;

/// Relies on `ring::digest::digest` with SHA-256: the digest is a function
/// of the input alone and is 32 bytes long.
#[verifier::external_body]
pub(crate) fn sha256(data: &Vec<u8>) -> (r: Vec<u8>)
    ensures
        r@ == sha256_of(data@),
        r@.len() == 32,
{
    ring::digest::digest(&ring::digest::SHA256, data.as_slice()).as_ref().to_vec()
}

/// The HMAC-SHA256 tag of `data` under `key`.
pub uninterp spec fn hmac_sha256_of(key: Seq<u8>, data: Seq<u8>) -> Seq<u8>;

/// Relies on `ring::hmac::sign` with `HMAC_SHA256`: the tag is a function of
/// key and message alone and is 32 bytes long.
#[verifier::external_body]
pub(crate) fn hmac_sha256(key: &Vec<u8>, data: &Vec<u8>) -> (r: Vec<u8>)
    ensures
        r@ == hmac_sha256_of(key@, data@),
        r@.len() == 32,
{
    let key = ring::hmac::Key::new(ring::hmac::HMAC_SHA256, key.as_slice());
    ring::hmac::sign(&key, data.as_slice()).as_ref().to_vec()
}

/// Relies on `ring::rand::generate`: sixteen random bytes for a signature
/// nonce. Nothing is assumed of their values; `None` when the system's
/// randomness source fails.
#[verifier::external_body]
pub(crate) fn random_nonce() -> (r: Option<Vec<u8>>)
    ensures
        r matches Some(v) ==> v@.len() == 16,
{
    let rng = ring::rand::SystemRandom::new();
    let nonce: [u8; 16] = ring::rand::generate(&rng).ok()?.expose();
    Some(nonce.to_vec())
}

/// The calendar date of unix time `ts`, written `YYYY-MM-DD`.
pub uninterp spec fn date_text_of(ts: int) -> Seq<u8>;

/// The timestamps the calendar covers: years -9999 through 9999, the range
/// `time::OffsetDateTime::from_unix_timestamp` accepts.
pub open spec fn unix_in_calendar(ts: int) -> bool {
    -377705116800 <= ts <= 253402300799
}

/// Relies on `time::OffsetDateTime::from_unix_timestamp` and the `Display`
/// of `time::Date`: the date text is a function of the timestamp alone, and
/// the conversion succeeds exactly on the calendar's range.
#[verifier::external_body]
pub(crate) fn utc_date_text(ts: i64) -> (r: Option<Vec<u8>>)
    ensures
        r is Some <==> unix_in_calendar(ts as int),
        r matches Some(v) ==> v@ == date_text_of(ts as int),
{
    let t = time::OffsetDateTime::from_unix_timestamp(ts).ok()?;
    Some(t.date().to_string().into_bytes())
}

/// The instant of unix time `ts`, written as ISO 8601 with whole seconds,
/// as `2023-01-02T03:04:05Z`.
pub uninterp spec fn iso8601_text_of(ts: int) -> Seq<u8>;

/// Relies on `time::OffsetDateTime::from_unix_timestamp` and its `date`,
/// `hour`, `minute` and `second` accessors: the text is a function of the
/// timestamp alone, and the conversion succeeds exactly on the calendar's
/// range.
#[verifier::external_body]
pub(crate) fn utc_iso8601_text(ts: i64) -> (r: Option<Vec<u8>>)
    ensures
        r is Some <==> unix_in_calendar(ts as int),
        r matches Some(v) ==> v@ == iso8601_text_of(ts as int),
{
    let t = time::OffsetDateTime::from_unix_timestamp(ts).ok()?;
    let text = format!("{}T{:02}:{:02}:{:02}Z", t.date(), t.hour(), t.minute(), t.second());
    Some(text.into_bytes())
}

} // verus!
