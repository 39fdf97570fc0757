//! Byte-string helpers shared by the whole crate.
//!
//! Configuration values, templates, domain names and wire payloads are all
//! carried as `Vec<u8>`; the spec functions here give them their meaning as
//! `Seq<u8>` and the executable functions are proved against those specs.

use vstd::prelude::*;
use vstd::string::StrSliceExecFns;
use vstd::string::StringSliceAdditionalSpecFns;

verus! {

/// ASCII code of `.`.
pub const DOT: u8 = 46;

/// ASCII code of `:`.
pub const COLON: u8 = 58;

/// The bytes of an ASCII string literal, as a vector.
pub fn lit(s: &str) -> (r: Vec<u8>)
    requires
        vstd::string::is_ascii(s),
    ensures
        r@ == s.spec_bytes(),
{
    s.as_bytes_vec()
}

/// Appends every byte of `src` to `dst`.
pub fn append_bytes(dst: &mut Vec<u8>, src: &[u8])
    ensures
        final(dst)@ == old(dst)@ + src@,
{
    let mut i: usize = 0;
    while i < src.len()
        invariant
            i <= src.len(),
            dst@ == old(dst)@ + src@.take(i as int),
        decreases src.len() - i,
    {
        dst.push(src[i]);
        assert(old(dst)@ + src@.take(i + 1) =~= (old(dst)@ + src@.take(i as int)).push(src@[i as int]));
        i = i + 1;
    }
    assert(src@.take(src@.len() as int) =~= src@);
}

/// A copy of `v`.
pub fn clone_bytes(v: &[u8]) -> (r: Vec<u8>)
    ensures
        r@ == v@,
{
    let mut r: Vec<u8> = Vec::new();
    append_bytes(&mut r, v);
    proof {
        assert(r@ =~= v@);
    }
    r
}

/// True exactly when the two byte strings hold the same bytes.
pub fn bytes_eq(a: &[u8], b: &[u8]) -> (r: bool)
    ensures
        r == (a@ == b@),
{
    if a.len() != b.len() {
        return false;
    }
    let mut i: usize = 0;
    while i < a.len()
        invariant
            i <= a.len(),
            a@.len() == b@.len(),
            forall|j: int| 0 <= j < i ==> a@[j] == b@[j],
        decreases a.len() - i,
    {
        if a[i] != b[i] {
            return false;
        }
        i = i + 1;
    }
    assert(a@ =~= b@);
    true
}

/// The ASCII digit for `d`, which must be below ten.
pub open spec fn dec_digit(d: int) -> u8 {
    (48 + d) as u8
}

/// Decimal digits of `n`, most significant first.
pub open spec fn dec_digits(n: int) -> Seq<u8>
    decreases n,
{
    if n < 10 {
        seq![dec_digit(n)]
    } else {
        dec_digits(n / 10) + seq![dec_digit(n % 10)]
    }
}

/// Writes `n` in decimal.
pub fn u64_to_dec(n: u64) -> (r: Vec<u8>)
    ensures
        r@ == dec_digits(n as int),
    decreases n,
{
    if n < 10 {
        let mut v: Vec<u8> = Vec::new();
        v.push(48 + (n as u8));
        assert(v@ =~= dec_digits(n as int));
        v
    } else {
        assert(n / 10 < n && n / 10 >= 1) by (nonlinear_arith)
            requires n >= 10;
        let mut v = u64_to_dec(n / 10);
        v.push(48 + ((n % 10) as u8));
        assert(v@ =~= dec_digits(n as int));
        v
    }
}

/// Every byte of `s` is an ASCII digit.
pub open spec fn all_digits(s: Seq<u8>) -> bool {
    forall|i: int| 0 <= i < s.len() ==> 48 <= #[trigger] s[i] <= 57
}

/// The number the digit string `s` denotes.
pub open spec fn dec_value(s: Seq<u8>) -> int
    decreases s.len(),
{
    if s.len() == 0 {
        0
    } else {
        dec_value(s.drop_last()) * 10 + (s.last() - 48)
    }
}

/// A digit string denotes at least what any of its prefixes denotes.
pub proof fn lemma_dec_value_prefix(s: Seq<u8>, i: int)
    requires
        all_digits(s),
        0 <= i <= s.len(),
    ensures
        0 <= dec_value(s.take(i)) <= dec_value(s),
    decreases s.len(),
{
    if s.len() == 0 {
    } else {
        lemma_dec_value_prefix(s.drop_last(), if i <= s.len() - 1 {
            i
        } else {
            s.len() - 1
        });
        assert(dec_value(s.drop_last()) * 10 >= dec_value(s.drop_last())) by (nonlinear_arith)
            requires dec_value(s.drop_last()) >= 0;
        if i <= s.len() - 1 {
            assert(s.drop_last().take(i) =~= s.take(i));
        } else {
            assert(s.take(i) =~= s);
        }
    }
}

/// Reads a decimal number. `None` exactly when `s` is empty, holds a
/// non-digit, or denotes more than `u64::MAX`.
pub fn parse_u64(s: &[u8]) -> (r: Option<u64>)
    ensures
        r is Some <==> s@.len() > 0 && all_digits(s@) && dec_value(s@) <= u64::MAX,
        r matches Some(v) ==> v == dec_value(s@),
{
    if s.len() == 0 {
        return None;
    }
    let mut acc: u64 = 0;
    let mut i: usize = 0;
    proof {
        assert(s@.take(0) =~= Seq::<u8>::empty());
    }
    while i < s.len()
        invariant
            i <= s@.len(),
            s@.len() <= usize::MAX,
            all_digits(s@.take(i as int)),
            acc == dec_value(s@.take(i as int)),
        decreases s.len() - i,
    {
        let b = s[i];
        if b < 48 || b > 57 {
            proof {
                assert(s@[i as int] == b);
            }
            return None;
        }
        let d = (b - 48) as u64;
        if acc > (u64::MAX - d) / 10 {
            proof {
                assert(acc * 10 + d > u64::MAX) by (nonlinear_arith)
                    requires acc > (u64::MAX - d) / 10, d <= 9, acc >= 0;
                assert(s@.take(i + 1).drop_last() =~= s@.take(i as int));
                assert(s@.take(i + 1).last() == s@[i as int]);
                assert(dec_value(s@.take(i + 1)) == acc * 10 + d);
                assert(all_digits(s@.take(i + 1)));
                assert(s@.take(s@.len() as int) =~= s@);
                if all_digits(s@) {
                    lemma_dec_value_prefix(s@, i + 1);
                    assert(dec_value(s@) > u64::MAX);
                }
            }
            return None;
        }
        proof {
            assert(acc * 10 + d <= u64::MAX) by (nonlinear_arith)
                requires acc <= (u64::MAX - d) / 10, d <= 9, acc >= 0;
            assert(s@.take(i + 1).drop_last() =~= s@.take(i as int));
            assert(s@.take(i + 1).last() == s@[i as int]);
        }
        acc = acc * 10 + d;
        i = i + 1;
    }
    proof {
        assert(s@.take(s@.len() as int) =~= s@);
    }
    Some(acc)
}

/// The upper-case hex digit for `d`, which must be below sixteen.
pub open spec fn hex_upper_digit(d: int) -> u8 {
    if d < 10 {
        (48 + d) as u8
    } else {
        (55 + d) as u8
    }
}

/// True of the bytes percent-encoding leaves alone: ASCII letters, digits,
/// `-`, `.`, `_` and `~`.
pub open spec fn is_unreserved(b: u8) -> bool {
    ||| 48 <= b <= 57
    ||| 65 <= b <= 90
    ||| 97 <= b <= 122
    ||| b == 45
    ||| b == 46
    ||| b == 95
    ||| b == 126
}

/// One byte, percent-encoded: itself when unreserved, `%XX` otherwise.
pub open spec fn pct_byte(b: u8) -> Seq<u8> {
    if is_unreserved(b) {
        seq![b]
    } else {
        seq![37u8, hex_upper_digit(b as int / 16), hex_upper_digit(b as int % 16)]
    }
}

/// `s`, percent-encoded byte for byte.
pub open spec fn pct_encoded(s: Seq<u8>) -> Seq<u8>
    decreases s.len(),
{
    if s.len() == 0 {
        Seq::<u8>::empty()
    } else {
        pct_byte(s[0]) + pct_encoded(s.skip(1))
    }
}

/// Encoding one more byte appends its encoding.
pub proof fn lemma_pct_push(s: Seq<u8>, x: u8)
    ensures
        pct_encoded(s.push(x)) == pct_encoded(s) + pct_byte(x),
    decreases s.len(),
{
    if s.len() == 0 {
        assert(s.push(x) =~= seq![x]);
        assert(seq![x][0] == x);
        assert(seq![x].skip(1) =~= Seq::<u8>::empty());
        assert(pct_encoded(seq![x]) == pct_byte(x) + pct_encoded(Seq::<u8>::empty()));
        assert(pct_byte(x) + Seq::<u8>::empty() =~= pct_byte(x));
        assert(pct_encoded(s) + pct_byte(x) =~= pct_byte(x));
    } else {
        assert(s.push(x)[0] == s[0]);
        assert(s.push(x).skip(1) =~= s.skip(1).push(x));
        lemma_pct_push(s.skip(1), x);
        assert(pct_byte(s[0]) + (pct_encoded(s.skip(1)) + pct_byte(x)) =~= (pct_byte(s[0])
            + pct_encoded(s.skip(1))) + pct_byte(x));
    }
}

/// Percent-encodes `s` with the RFC 3986 unreserved set; a space becomes
/// `%20`.
pub fn percent_encode(s: &[u8]) -> (r: Vec<u8>)
    ensures
        r@ == pct_encoded(s@),
{
    let mut out: Vec<u8> = Vec::new();
    let mut i: usize = 0;
    proof {
        assert(s@.take(0) =~= Seq::<u8>::empty());
    }
    while i < s.len()
        invariant
            i <= s@.len(),
            out@ == pct_encoded(s@.take(i as int)),
        decreases s.len() - i,
    {
        let b = s[i];
        let unreserved = (48 <= b && b <= 57) || (65 <= b && b <= 90) || (97 <= b && b <= 122) || b
            == 45 || b == 46 || b == 95 || b == 126;
        if unreserved {
            out.push(b);
        } else {
            out.push(37);
            let hi = b / 16;
            let lo = b % 16;
            out.push(if hi < 10 { 48 + hi } else { 55 + hi });
            out.push(if lo < 10 { 48 + lo } else { 55 + lo });
        }
        proof {
            lemma_pct_push(s@.take(i as int), s@[i as int]);
            assert(s@.take(i as int).push(s@[i as int]) =~= s@.take(i + 1));
            assert(out@ =~= pct_encoded(s@.take(i as int)) + pct_byte(s@[i as int]));
        }
        i = i + 1;
    }
    proof {
        assert(s@.take(s@.len() as int) =~= s@);
    }
    out
}

/// `s` without its leading spaces.
pub open spec fn trim_start(s: Seq<u8>) -> Seq<u8>
    decreases s.len(),
{
    if s.len() > 0 && s[0] == 32 {
        trim_start(s.skip(1))
    } else {
        s
    }
}

/// `s` without its trailing spaces.
pub open spec fn trim_end(s: Seq<u8>) -> Seq<u8>
    decreases s.len(),
{
    if s.len() > 0 && s.last() == 32 {
        trim_end(s.drop_last())
    } else {
        s
    }
}

/// `s` without leading and trailing spaces.
pub open spec fn trimmed(s: Seq<u8>) -> Seq<u8> {
    trim_end(trim_start(s))
}

/// Strips leading and trailing spaces.
pub fn trim_bytes(s: &[u8]) -> (r: Vec<u8>)
    ensures
        r@ == trimmed(s@),
{
    let mut i: usize = 0;
    let slen = s.len();
    proof {
        assert(slen == s@.len());
        assert(s@.skip(0) =~= s@);
    }
    while i < s.len() && s[i] == 32
        invariant
            i <= s@.len(),
            s@.len() <= usize::MAX,
            trim_start(s@) == trim_start(s@.skip(i as int)),
        decreases s.len() - i,
    {
        proof {
            assert(s@.skip(i as int)[0] == s@[i as int]);
            assert(s@.skip(i as int).skip(1) =~= s@.skip(i + 1));
        }
        i = i + 1;
    }
    let ghost t = s@.skip(i as int);
    proof {
        if i < s@.len() {
            assert(t[0] == s@[i as int]);
        } else {
            assert(t =~= Seq::<u8>::empty());
        }
        assert(trim_start(s@) == t);
    }
    let mut j: usize = s.len();
    proof {
        assert(t.take(j - i) =~= t);
    }
    while j > i && s[j - 1] == 32
        invariant
            i <= j <= s@.len(),
            s@.len() <= usize::MAX,
            t == s@.skip(i as int),
            trim_end(t) == trim_end(t.take(j - i)),
        decreases j,
    {
        proof {
            let cur = t.take(j - i);
            assert(cur.last() == s@[j - 1]);
            assert(cur.drop_last() =~= t.take(j - 1 - i));
        }
        j = j - 1;
    }
    proof {
        let cur = t.take(j - i);
        if j > i {
            assert(cur.last() == s@[j - 1]);
            assert(trim_end(cur) == cur);
        } else {
            assert(cur =~= Seq::<u8>::empty());
        }
    }
    let mut out: Vec<u8> = Vec::new();
    let mut k: usize = i;
    while k < j
        invariant
            i <= k <= j <= s@.len(),
            s@.len() <= usize::MAX,
            out@ =~= s@.subrange(i as int, k as int),
        decreases j - k,
    {
        out.push(s[k]);
        proof {
            assert(out@ =~= s@.subrange(i as int, k + 1));
        }
        k = k + 1;
    }
    proof {
        assert(s@.subrange(i as int, j as int) =~= t.take(j - i));
    }
    out
}

/// The first position of `b` in `s`: exactly the earliest index holding it,
/// `None` when no position does.
pub fn find_byte(s: &[u8], b: u8) -> (r: Option<usize>)
    ensures
        r matches Some(i) ==> i < s@.len() && s@[i as int] == b && (forall|k: int|
            0 <= k < i ==> s@[k] != b),
        r is None ==> forall|k: int| 0 <= k < s@.len() ==> s@[k] != b,
{
    let mut i: usize = 0;
    while i < s.len()
        invariant
            i <= s@.len(),
            forall|k: int| 0 <= k < i ==> s@[k] != b,
        decreases s.len() - i,
    {
        if s[i] == b {
            return Some(i);
        }
        i = i + 1;
    }
    None
}

/// `pat` occurs in `s` at position `i`.
pub open spec fn match_at(s: Seq<u8>, pat: Seq<u8>, i: int) -> bool {
    &&& 0 <= i
    &&& i + pat.len() <= s.len()
    &&& s.subrange(i, i + pat.len() as int) == pat
}

/// `pat` occurs somewhere in `s`.
pub open spec fn contains_seq(s: Seq<u8>, pat: Seq<u8>) -> bool {
    exists|i: int| match_at(s, pat, i)
}

/// `s` with every non-overlapping occurrence of `pat`, taken left to right,
/// replaced by `rep`; the meaning of `str::replace`.
pub open spec fn replace_seq(s: Seq<u8>, pat: Seq<u8>, rep: Seq<u8>) -> Seq<u8>
    decreases s.len(),
{
    if pat.len() == 0 || s.len() < pat.len() {
        s
    } else if s.take(pat.len() as int) == pat {
        rep + replace_seq(s.skip(pat.len() as int), pat, rep)
    } else {
        seq![s[0]] + replace_seq(s.skip(1), pat, rep)
    }
}

/// True exactly when `pat` occurs in `s` at position `i`.
pub fn match_at_exec(s: &[u8], pat: &[u8], i: usize) -> (r: bool)
    requires
        i <= s@.len(),
    ensures
        r == match_at(s@, pat@, i as int),
{
    if s.len() - i < pat.len() {
        assert(!match_at(s@, pat@, i as int));
        return false;
    }
    let mut j: usize = 0;
    while j < pat.len()
        invariant
            j <= pat@.len(),
            i + pat@.len() <= s@.len(),
            s@.len() <= usize::MAX,
            forall|k: int| 0 <= k < j ==> s@[i + k] == pat@[k],
        decreases pat.len() - j,
    {
        assert(i + j < s@.len());
        if s[i + j] != pat[j] {
            assert(s@.subrange(i as int, i + pat@.len() as int)[j as int] == s@[i + j]);
            return false;
        }
        j = j + 1;
    }
    assert(s@.subrange(i as int, i + pat@.len() as int) =~= pat@);
    true
}

/// Replaces every occurrence of `pat` in `s` by `rep`, left to right and
/// without overlap, exactly as `str::replace` does.
pub fn replace_bytes(s: &[u8], pat: &[u8], rep: &[u8]) -> (r: Vec<u8>)
    requires
        pat@.len() > 0,
    ensures
        r@ == replace_seq(s@, pat@, rep@),
{
    let mut out: Vec<u8> = Vec::new();
    let mut i: usize = 0;
    proof {
        assert(s@.skip(0) =~= s@);
        assert(Seq::<u8>::empty() + replace_seq(s@, pat@, rep@) =~= replace_seq(s@, pat@, rep@));
    }
    while i < s.len()
        invariant
            i <= s@.len(),
            pat@.len() > 0,
            replace_seq(s@, pat@, rep@) == out@ + replace_seq(s@.skip(i as int), pat@, rep@),
        decreases s.len() - i,
    {
        let ghost rest = s@.skip(i as int);
        if match_at_exec(s, pat, i) {
            append_bytes(&mut out, rep);
            proof {
                assert(rest.take(pat@.len() as int) =~= s@.subrange(
                    i as int,
                    i + pat@.len() as int,
                ));
                assert(rest.skip(pat@.len() as int) =~= s@.skip(i + pat@.len() as int));
            }
            i = i + pat.len();
        } else {
            out.push(s[i]);
            proof {
                if rest.len() >= pat@.len() {
                    assert(rest.take(pat@.len() as int) =~= s@.subrange(
                        i as int,
                        i + pat@.len() as int,
                    ));
                    assert(rest.take(pat@.len() as int) != pat@);
                }
                assert(rest.skip(1) =~= s@.skip(i + 1));
                assert(seq![rest[0]] =~= seq![s@[i as int]]);
            }
            i = i + 1;
        }
    }
    assert(s@.skip(s@.len() as int) =~= Seq::<u8>::empty());
    assert(replace_seq(Seq::<u8>::empty(), pat@, rep@) == Seq::<u8>::empty());
    assert(out@ + Seq::<u8>::empty() =~= out@);
    out
}

/// The views of a sequence of byte vectors.
pub open spec fn views(vs: Seq<Vec<u8>>) -> Seq<Seq<u8>> {
    vs.map_values(|v: Vec<u8>| v@)
}

/// `s` cut at every occurrence of `sep`; the meaning of `str::split`.
/// The result always holds at least one piece.
pub open spec fn split_seq(s: Seq<u8>, sep: u8) -> Seq<Seq<u8>>
    decreases s.len(),
{
    if s.len() == 0 {
        seq![Seq::<u8>::empty()]
    } else {
        let rest = split_seq(s.skip(1), sep);
        if s[0] == sep {
            seq![Seq::<u8>::empty()] + rest
        } else {
            seq![seq![s[0]] + rest[0]] + rest.skip(1)
        }
    }
}

/// A split never yields an empty list of pieces.
pub proof fn lemma_split_nonempty(s: Seq<u8>, sep: u8)
    ensures
        split_seq(s, sep).len() >= 1,
    decreases s.len(),
{
    if s.len() > 0 {
        lemma_split_nonempty(s.skip(1), sep);
    }
}

/// The pieces of `parts` glued back together with `sep` between them.
pub open spec fn join_seq(parts: Seq<Seq<u8>>, sep: u8) -> Seq<u8>
    decreases parts.len(),
{
    if parts.len() == 0 {
        Seq::<u8>::empty()
    } else if parts.len() == 1 {
        parts[0]
    } else {
        parts[0] + seq![sep] + join_seq(parts.skip(1), sep)
    }
}

/// Joining after appending one more piece appends a separator and the piece.
pub proof fn lemma_join_push(parts: Seq<Seq<u8>>, x: Seq<u8>, sep: u8)
    ensures
        join_seq(parts.push(x), sep) == if parts.len() == 0 {
            x
        } else {
            join_seq(parts, sep) + seq![sep] + x
        },
    decreases parts.len(),
{
    if parts.len() == 0 {
        assert(parts.push(x) =~~= seq![x]);
    } else if parts.len() == 1 {
        assert(parts.push(x).skip(1) =~~= seq![x]);
        assert(parts.push(x)[0] == parts[0]);
        assert(join_seq(seq![x], sep) == x);
        assert(join_seq(parts.push(x), sep) == parts[0] + seq![sep] + x);
    } else {
        assert(parts.push(x).skip(1) =~~= parts.skip(1).push(x));
        lemma_join_push(parts.skip(1), x, sep);
        assert((parts[0] + seq![sep] + (join_seq(parts.skip(1), sep) + seq![sep] + x)) =~= ((
        parts[0] + seq![sep] + join_seq(parts.skip(1), sep)) + seq![sep] + x));
    }
}

/// Joining two non-empty piece lists concatenates their joins around one
/// separator.
pub proof fn lemma_join_parts(a: Seq<Seq<u8>>, b: Seq<Seq<u8>>, sep: u8)
    requires
        a.len() > 0,
        b.len() > 0,
    ensures
        join_seq(a + b, sep) == join_seq(a, sep) + seq![sep] + join_seq(b, sep),
    decreases a.len(),
{
    if a.len() == 1 {
        assert((a + b).skip(1) =~~= b);
        assert((a + b)[0] == a[0]);
        assert((a + b).len() >= 2);
    } else {
        assert((a + b).skip(1) =~~= a.skip(1) + b);
        lemma_join_parts(a.skip(1), b, sep);
        assert((a[0] + seq![sep] + (join_seq(a.skip(1), sep) + seq![sep] + join_seq(b, sep))) =~= ((
        a[0] + seq![sep] + join_seq(a.skip(1), sep)) + seq![sep] + join_seq(b, sep)));
    }
}

/// Splitting and joining again gives the string back.
pub proof fn lemma_join_split(s: Seq<u8>, sep: u8)
    ensures
        join_seq(split_seq(s, sep), sep) == s,
    decreases s.len(),
{
    if s.len() == 0 {
    } else {
        let rest = split_seq(s.skip(1), sep);
        lemma_split_nonempty(s.skip(1), sep);
        lemma_join_split(s.skip(1), sep);
        if s[0] == sep {
            let parts = seq![Seq::<u8>::empty()] + rest;
            assert(parts.skip(1) =~~= rest);
            assert(parts.len() >= 2);
            assert(join_seq(parts, sep) =~= seq![s[0]] + join_seq(rest, sep));
            assert(seq![s[0]] + s.skip(1) =~= s);
        } else {
            let parts = seq![seq![s[0]] + rest[0]] + rest.skip(1);
            if rest.len() == 1 {
                assert(parts.len() == 1);
                assert(join_seq(rest, sep) == rest[0]);
                assert(seq![s[0]] + rest[0] =~= seq![s[0]] + s.skip(1));
                assert(seq![s[0]] + s.skip(1) =~= s);
            } else {
                assert(parts.skip(1) =~~= rest.skip(1));
                assert(join_seq(parts, sep) == (seq![s[0]] + rest[0]) + seq![sep] + join_seq(
                    rest.skip(1),
                    sep,
                ));
                assert(join_seq(rest, sep) == rest[0] + seq![sep] + join_seq(rest.skip(1), sep));
                assert((seq![s[0]] + rest[0]) + seq![sep] + join_seq(rest.skip(1), sep) =~= seq![
                    s[0],
                ] + (rest[0] + seq![sep] + join_seq(rest.skip(1), sep)));
                assert(seq![s[0]] + s.skip(1) =~= s);
            }
        }
    }
}

/// Cuts `s` at every occurrence of `sep`, as `str::split` does.
pub fn split_bytes(s: &[u8], sep: u8) -> (r: Vec<Vec<u8>>)
    ensures
        views(r@) == split_seq(s@, sep),
        r@.len() >= 1,
{
    let mut done: Vec<Vec<u8>> = Vec::new();
    let mut cur: Vec<u8> = Vec::new();
    let mut i: usize = 0;
    let slen = s.len();
    proof {
        assert(slen == s@.len());
        assert(s@.skip(0) =~= s@);
        lemma_split_nonempty(s@, sep);
        let r0 = split_seq(s@, sep);
        assert(views(done@) + seq![cur@ + r0[0]] + r0.skip(1) =~~= seq![r0[0]] + r0.skip(1));
        assert(seq![r0[0]] + r0.skip(1) =~~= r0);
    }
    while i < s.len()
        invariant
            i <= s@.len(),
            s@.len() <= usize::MAX,
            split_seq(s@, sep) == views(done@) + seq![cur@ + split_seq(s@.skip(i as int), sep)[0]]
                + split_seq(s@.skip(i as int), sep).skip(1),
            split_seq(s@.skip(i as int), sep).len() >= 1,
        decreases s.len() - i,
    {
        let ghost rest = s@.skip(i as int);
        let ghost r = split_seq(rest, sep);
        let ghost r2 = split_seq(s@.skip(i + 1), sep);
        proof {
            assert(rest.len() > 0);
            assert(rest[0] == s@[i as int]);
            assert(rest.skip(1) =~= s@.skip(i + 1));
            lemma_split_nonempty(s@.skip(i + 1), sep);
        }
        if s[i] == sep {
            proof {
                assert(r == seq![Seq::<u8>::empty()] + r2);
                assert(r[0] == Seq::<u8>::empty());
                assert(r.skip(1) =~~= r2);
                assert(cur@ + r[0] =~= cur@);
            }
            let ghost old_done = done@;
            let ghost old_cur = cur@;
            done.push(cur);
            cur = Vec::new();
            proof {
                assert(views(done@) =~~= views(old_done).push(old_cur));
                assert(views(old_done) + seq![old_cur] + r2 =~~= views(done@) + seq![
                    cur@ + r2[0],
                ] + r2.skip(1));
            }
        } else {
            proof {
                assert(r == seq![seq![rest[0]] + r2[0]] + r2.skip(1));
                assert(r[0] == seq![rest[0]] + r2[0]);
                assert(r.skip(1) =~~= r2.skip(1));
            }
            let ghost old_cur = cur@;
            cur.push(s[i]);
            proof {
                assert(cur@ =~= old_cur + seq![s@[i as int]]);
                assert(cur@ + r2[0] =~= old_cur + (seq![s@[i as int]] + r2[0]));
            }
        }
        i = i + 1;
    }
    proof {
        assert(s@.skip(s@.len() as int) =~= Seq::<u8>::empty());
        let r = split_seq(Seq::<u8>::empty(), sep);
        assert(r == seq![Seq::<u8>::empty()]);
        assert(r.skip(1) =~~= Seq::<Seq<u8>>::empty());
        assert(cur@ + r[0] =~= cur@);
        assert(views(done@) + seq![cur@] + Seq::<Seq<u8>>::empty() =~~= views(done@) + seq![cur@]);
    }
    let ghost old_done = done@;
    let ghost old_cur = cur@;
    done.push(cur);
    proof {
        assert(views(done@) =~~= views(old_done) + seq![old_cur]);
    }
    done
}

/// Glues `parts` together with `sep` between consecutive pieces.
pub fn join_bytes(parts: &[Vec<u8>], sep: u8) -> (r: Vec<u8>)
    ensures
        r@ == join_seq(views(parts@), sep),
{
    let mut out: Vec<u8> = Vec::new();
    let mut i: usize = 0;
    proof {
        assert(views(parts@).take(0) =~~= Seq::<Seq<u8>>::empty());
    }
    while i < parts.len()
        invariant
            i <= parts@.len(),
            out@ == join_seq(views(parts@).take(i as int), sep),
        decreases parts.len() - i,
    {
        let ghost before = views(parts@).take(i as int);
        if i > 0 {
            out.push(sep);
        }
        append_bytes(&mut out, parts[i].as_slice());
        proof {
            lemma_join_push(before, parts@[i as int]@, sep);
            assert(before.push(parts@[i as int]@) =~~= views(parts@).take(i + 1));
            if i == 0 {
                assert(out@ =~= parts@[0]@);
            }
        }
        i = i + 1;
    }
    proof {
        assert(views(parts@).take(parts@.len() as int) =~~= views(parts@));
    }
    out
}

/// `b` with an upper-case ASCII letter turned lower-case.
pub open spec fn lower_byte(b: u8) -> u8 {
    if 65 <= b <= 90 {
        (b + 32) as u8
    } else {
        b
    }
}

/// `s` with every upper-case ASCII letter turned lower-case.
pub open spec fn to_ascii_lower(s: Seq<u8>) -> Seq<u8> {
    s.map_values(|b: u8| lower_byte(b))
}

/// `b` with a lower-case ASCII letter turned upper-case.
pub open spec fn upper_byte(b: u8) -> u8 {
    if 97 <= b <= 122 {
        (b - 32) as u8
    } else {
        b
    }
}

/// `s` with every lower-case ASCII letter turned upper-case.
pub open spec fn to_ascii_upper(s: Seq<u8>) -> Seq<u8> {
    s.map_values(|b: u8| upper_byte(b))
}

/// Lower-cases every ASCII letter of `s`.
pub fn ascii_lower(s: &[u8]) -> (r: Vec<u8>)
    ensures
        r@ == to_ascii_lower(s@),
{
    let mut out: Vec<u8> = Vec::new();
    let mut i: usize = 0;
    while i < s.len()
        invariant
            i <= s@.len(),
            out@ =~= to_ascii_lower(s@.take(i as int)),
        decreases s.len() - i,
    {
        let b = s[i];
        if 65 <= b && b <= 90 {
            out.push(b + 32);
        } else {
            out.push(b);
        }
        proof {
            assert(to_ascii_lower(s@.take(i + 1)) =~= to_ascii_lower(s@.take(i as int)).push(
                lower_byte(s@[i as int]),
            ));
        }
        i = i + 1;
    }
    proof {
        assert(s@.take(s@.len() as int) =~= s@);
    }
    out
}

/// Upper-cases every ASCII letter of `s`.
pub fn ascii_upper(s: &[u8]) -> (r: Vec<u8>)
    ensures
        r@ == to_ascii_upper(s@),
{
    let mut out: Vec<u8> = Vec::new();
    let mut i: usize = 0;
    while i < s.len()
        invariant
            i <= s@.len(),
            out@ =~= to_ascii_upper(s@.take(i as int)),
        decreases s.len() - i,
    {
        let b = s[i];
        if 97 <= b && b <= 122 {
            out.push(b - 32);
        } else {
            out.push(b);
        }
        proof {
            assert(to_ascii_upper(s@.take(i + 1)) =~= to_ascii_upper(s@.take(i as int)).push(
                upper_byte(s@[i as int]),
            ));
        }
        i = i + 1;
    }
    proof {
        assert(s@.take(s@.len() as int) =~= s@);
    }
    out
}

/// Replacing a pattern that does not occur leaves the string unchanged.
pub proof fn lemma_replace_absent(s: Seq<u8>, pat: Seq<u8>, rep: Seq<u8>)
    requires
        pat.len() > 0,
        !contains_seq(s, pat),
    ensures
        replace_seq(s, pat, rep) == s,
    decreases s.len(),
{
    if s.len() < pat.len() {
    } else {
        assert(s.take(pat.len() as int) =~= s.subrange(0, pat.len() as int));
        if s.take(pat.len() as int) == pat {
            assert(match_at(s, pat, 0));
        }
        assert forall|i: int| !match_at(s.skip(1), pat, i) by {
            if match_at(s.skip(1), pat, i) {
                assert(s.skip(1).subrange(i, i + pat.len() as int) =~= s.subrange(
                    i + 1,
                    i + 1 + pat.len() as int,
                ));
                assert(match_at(s, pat, i + 1));
            }
        }
        lemma_replace_absent(s.skip(1), pat, rep);
        assert(seq![s[0]] + s.skip(1) =~= s);
    }
}

} // verus!
