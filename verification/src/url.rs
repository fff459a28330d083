//! URL composition: validating a base URL and appending an endpoint's
//! path segments and query parameters to it.
//!
//! A base URL is `scheme "://" authority [ "/" path ]`, made of printable
//! ASCII bytes without `?` or `#`: the scheme starts with a letter and
//! continues with letters, digits, `+`, `-` or `.`, and the authority is
//! non-empty. The endpoint path is appended segment by segment (segments
//! are separated by `/`), each segment percent-encoded; query pairs are
//! appended as `?k=v&k=v`, keys and rendered values percent-encoded.

use vstd::prelude::*;
use vstd::utf8::encode_utf8;

use crate::errors::ClientError;
use crate::query::{rendered, QueryValue, QueryValueV};

verus! {

/// Bytes that stand for themselves in a URL; every other byte is
/// percent-encoded. These are the unreserved bytes: letters, digits,
/// `-`, `.`, `_` and `~`.
pub open spec fn is_unreserved(b: u8) -> bool {
    (48 <= b && b <= 57) || (65 <= b && b <= 90) || (97 <= b && b <= 122) || b == 45 || b == 46
        || b == 95 || b == 126
}

/// The ASCII code of the upper-case hexadecimal digit for `n`.
pub open spec fn hex_digit(n: u8) -> u8
    recommends
        n < 16,
{
    if n < 10 {
        (48 + n) as u8
    } else {
        (55 + n) as u8
    }
}

/// How one byte appears once percent-encoded: itself if unreserved,
/// else `%XX`.
pub open spec fn pct_byte(b: u8) -> Seq<u8> {
    if is_unreserved(b) {
        seq![b]
    } else {
        seq![37u8, hex_digit(b / 16), hex_digit(b % 16)]
    }
}

/// Percent-encoding of a whole byte sequence.
pub open spec fn pct_encode(s: Seq<u8>) -> Seq<u8>
    decreases s.len(),
{
    if s.len() == 0 {
        Seq::empty()
    } else {
        pct_byte(s[0]) + pct_encode(s.drop_first())
    }
}

/// How one byte of an endpoint path appears in the URL: `/` separates
/// segments and stays, every other byte is percent-encoded.
pub open spec fn path_byte(b: u8) -> Seq<u8> {
    if b == 47 {
        seq![47u8]
    } else {
        pct_byte(b)
    }
}

/// The endpoint path with each of its `/`-separated segments
/// percent-encoded.
pub open spec fn path_encode(s: Seq<u8>) -> Seq<u8>
    decreases s.len(),
{
    if s.len() == 0 {
        Seq::empty()
    } else {
        path_byte(s[0]) + path_encode(s.drop_first())
    }
}

proof fn lemma_pct_encode_push(s: Seq<u8>, b: u8)
    ensures
        pct_encode(s.push(b)) == pct_encode(s) + pct_byte(b),
    decreases s.len(),
{
    if s.len() == 0 {
        assert(s.push(b)[0] == b);
        assert(s.push(b).drop_first() =~= Seq::<u8>::empty());
        assert(pct_encode(s.push(b)) == pct_byte(b) + pct_encode(Seq::<u8>::empty()));
        assert(pct_encode(s.push(b)) =~= pct_encode(s) + pct_byte(b));
    } else {
        assert(s.push(b)[0] == s[0]);
        assert(s.push(b).drop_first() =~= s.drop_first().push(b));
        lemma_pct_encode_push(s.drop_first(), b);
        assert(pct_encode(s.push(b)) == pct_byte(s[0]) + (pct_encode(s.drop_first()) + pct_byte(
            b,
        )));
        assert(pct_encode(s.push(b)) =~= pct_encode(s) + pct_byte(b));
    }
}

proof fn lemma_path_encode_push(s: Seq<u8>, b: u8)
    ensures
        path_encode(s.push(b)) == path_encode(s) + path_byte(b),
    decreases s.len(),
{
    if s.len() == 0 {
        assert(s.push(b)[0] == b);
        assert(s.push(b).drop_first() =~= Seq::<u8>::empty());
        assert(path_encode(s.push(b)) == path_byte(b) + path_encode(Seq::<u8>::empty()));
        assert(path_encode(s.push(b)) =~= path_encode(s) + path_byte(b));
    } else {
        assert(s.push(b)[0] == s[0]);
        assert(s.push(b).drop_first() =~= s.drop_first().push(b));
        lemma_path_encode_push(s.drop_first(), b);
        assert(path_encode(s.push(b)) == path_byte(s[0]) + (path_encode(s.drop_first())
            + path_byte(b)));
        assert(path_encode(s.push(b)) =~= path_encode(s) + path_byte(b));
    }
}

/// A letter.
pub open spec fn is_alpha(b: u8) -> bool {
    (65 <= b && b <= 90) || (97 <= b && b <= 122)
}

/// A byte allowed in a scheme after its first letter.
pub open spec fn is_scheme_byte(b: u8) -> bool {
    is_alpha(b) || (48 <= b && b <= 57) || b == 43 || b == 45 || b == 46
}

/// A valid scheme: non-empty, a letter first, scheme bytes throughout.
pub open spec fn valid_scheme(s: Seq<u8>) -> bool {
    &&& s.len() > 0
    &&& is_alpha(s[0])
    &&& forall|j: int| 0 <= j < s.len() ==> is_scheme_byte(#[trigger] s[j])
}

/// A byte allowed anywhere in a base URL: printable ASCII, but neither
/// `?` nor `#` (a base carries no query and no fragment).
pub open spec fn is_base_byte(b: u8) -> bool {
    33 <= b && b <= 126 && b != 63 && b != 35
}

/// Index of the first `"://"` in `s`, if any.
pub open spec fn find_sep(s: Seq<u8>) -> Option<int>
    decreases s.len(),
{
    if s.len() < 3 {
        None
    } else if s[0] == 58 && s[1] == 47 && s[2] == 47 {
        Some(0int)
    } else {
        match find_sep(s.drop_first()) {
            Some(i) => Some(i + 1),
            None => None,
        }
    }
}

/// Whether `s` is a well-formed base URL.
pub open spec fn base_ok(s: Seq<u8>) -> bool {
    &&& forall|j: int| 0 <= j < s.len() ==> is_base_byte(#[trigger] s[j])
    &&& match find_sep(s) {
        Some(i) => valid_scheme(s.take(i)) && i + 3 < s.len() && s[i + 3] != 47,
        None => false,
    }
}

/// The base with one trailing `/` removed, so that appending the
/// endpoint path never doubles the separator.
pub open spec fn trim_slash(s: Seq<u8>) -> Seq<u8> {
    if s.len() > 0 && s.last() == 47 {
        s.drop_last()
    } else {
        s
    }
}

/// What the endpoint path contributes to the URL: a `/`, then the path
/// with each segment percent-encoded.
pub open spec fn path_part(p: Seq<u8>) -> Seq<u8> {
    seq![47u8] + path_encode(p)
}

/// One `key=value` pair, key and rendered value percent-encoded.
pub open spec fn pair_part(k: Seq<char>, v: QueryValueV) -> Seq<u8> {
    pct_encode(encode_utf8(k)) + seq![61u8] + pct_encode(rendered(v))
}

/// The query pairs after the first, each preceded by `&`.
pub open spec fn query_tail(q: Seq<(Seq<char>, QueryValueV)>) -> Seq<u8>
    decreases q.len(),
{
    if q.len() == 0 {
        Seq::empty()
    } else {
        seq![38u8] + pair_part(q[0].0, q[0].1) + query_tail(q.drop_first())
    }
}

/// What the query pairs contribute to the URL: nothing when there are
/// none, else `?` and the `&`-separated pairs.
pub open spec fn query_part(q: Seq<(Seq<char>, QueryValueV)>) -> Seq<u8> {
    if q.len() == 0 {
        Seq::empty()
    } else {
        seq![63u8] + pair_part(q[0].0, q[0].1) + query_tail(q.drop_first())
    }
}

proof fn lemma_query_tail_push(q: Seq<(Seq<char>, QueryValueV)>, p: (Seq<char>, QueryValueV))
    ensures
        query_tail(q.push(p)) == query_tail(q) + seq![38u8] + pair_part(p.0, p.1),
    decreases q.len(),
{
    if q.len() == 0 {
        assert(q.push(p)[0] == p);
        assert(q.push(p).drop_first() =~= Seq::<(Seq<char>, QueryValueV)>::empty());
        assert(query_tail(q.push(p)) == seq![38u8] + pair_part(p.0, p.1) + query_tail(
            Seq::<(Seq<char>, QueryValueV)>::empty(),
        ));
        assert(query_tail(q.push(p)) =~= query_tail(q) + seq![38u8] + pair_part(p.0, p.1));
    } else {
        assert(q.push(p)[0] == q[0]);
        assert(q.push(p).drop_first() =~= q.drop_first().push(p));
        lemma_query_tail_push(q.drop_first(), p);
        assert(query_tail(q.push(p)) == seq![38u8] + pair_part(q[0].0, q[0].1) + (query_tail(
            q.drop_first(),
        ) + seq![38u8] + pair_part(p.0, p.1)));
        assert(query_tail(q.push(p)) =~= query_tail(q) + seq![38u8] + pair_part(p.0, p.1));
    }
}

proof fn lemma_query_part_push(q: Seq<(Seq<char>, QueryValueV)>, p: (Seq<char>, QueryValueV))
    ensures
        q.len() == 0 ==> query_part(q.push(p)) == seq![63u8] + pair_part(p.0, p.1),
        q.len() > 0 ==> query_part(q.push(p)) == query_part(q) + seq![38u8] + pair_part(p.0, p.1),
{
    if q.len() == 0 {
        assert(query_part(q.push(p)) =~= seq![63u8] + pair_part(p.0, p.1));
    } else {
        assert(q.push(p)[0] == q[0]);
        assert(q.push(p).drop_first() =~= q.drop_first().push(p));
        lemma_query_tail_push(q.drop_first(), p);
        assert(query_part(q.push(p)) =~= query_part(q) + seq![38u8] + pair_part(p.0, p.1));
    }
}

/// The URL built from a valid base, an endpoint path and query pairs.
pub open spec fn built_url(base: Seq<u8>, path: Seq<u8>, q: Seq<(Seq<char>, QueryValueV)>) -> Seq<
    u8,
> {
    trim_slash(base) + path_part(path) + query_part(q)
}

fn is_unreserved_ex(b: u8) -> (r: bool)
    ensures
        r == is_unreserved(b),
{
    (48 <= b && b <= 57) || (65 <= b && b <= 90) || (97 <= b && b <= 122) || b == 45 || b == 46
        || b == 95 || b == 126
}

fn hex_digit_ex(n: u8) -> (r: u8)
    requires
        n < 16,
    ensures
        r == hex_digit(n),
{
    if n < 10 {
        48 + n
    } else {
        55 + n
    }
}

fn push_pct(out: &mut Vec<u8>, b: u8)
    ensures
        final (out)@ == old(out)@ + pct_byte(b),
{
    let ghost start = out@;
    if is_unreserved_ex(b) {
        out.push(b);
        proof {
            assert(out@ =~= start + pct_byte(b));
        }
    } else {
        out.push(37);
        out.push(hex_digit_ex(b / 16));
        out.push(hex_digit_ex(b % 16));
        proof {
            assert(out@ =~= start + pct_byte(b));
        }
    }
}

/// Appends the percent-encoding of `s` onto `out`.
fn pct_encode_onto(out: &mut Vec<u8>, s: &[u8])
    ensures
        final (out)@ == old(out)@ + pct_encode(s@),
{
    let ghost start = out@;
    let mut i: usize = 0;
    while i < s.len()
        invariant
            i <= s@.len(),
            out@ == start + pct_encode(s@.take(i as int)),
        decreases s@.len() - i,
    {
        push_pct(out, s[i]);
        proof {
            lemma_pct_encode_push(s@.take(i as int), s@[i as int]);
            assert(s@.take(i as int + 1) =~= s@.take(i as int).push(s@[i as int]));
        }
        i += 1;
    }
    proof {
        assert(s@.take(s@.len() as int) =~= s@);
    }
}

/// Appends the encoded endpoint path bytes onto `out`.
fn path_encode_onto(out: &mut Vec<u8>, s: &[u8])
    ensures
        final (out)@ == old(out)@ + path_encode(s@),
{
    let ghost start = out@;
    let mut i: usize = 0;
    while i < s.len()
        invariant
            i <= s@.len(),
            out@ == start + path_encode(s@.take(i as int)),
        decreases s@.len() - i,
    {
        let b = s[i];
        if b == 47 {
            out.push(47);
            proof {
                assert(out@ =~= start + path_encode(s@.take(i as int)) + path_byte(b));
            }
        } else {
            push_pct(out, b);
        }
        proof {
            lemma_path_encode_push(s@.take(i as int), s@[i as int]);
            assert(s@.take(i as int + 1) =~= s@.take(i as int).push(s@[i as int]));
        }
        i += 1;
    }
    proof {
        assert(s@.take(s@.len() as int) =~= s@);
    }
}

fn find_sep_from(s: &[u8], from: usize) -> (r: Option<usize>)
    requires
        from <= s@.len(),
    ensures
        match r {
            Some(i) => from <= i && i + 3 <= s@.len() && find_sep(s@.skip(from as int)) == Some(
                i - from,
            ),
            None => find_sep(s@.skip(from as int)) is None,
        },
    decreases s@.len() - from,
{
    if s.len() - from < 3 {
        None
    } else if s[from] == 58 && s[from + 1] == 47 && s[from + 2] == 47 {
        proof {
            assert(s@.skip(from as int)[0] == s@[from as int]);
            assert(s@.skip(from as int)[1] == s@[from as int + 1]);
            assert(s@.skip(from as int)[2] == s@[from as int + 2]);
        }
        Some(from)
    } else {
        proof {
            assert(s@.skip(from as int).drop_first() =~= s@.skip(from as int + 1));
            assert(s@.skip(from as int)[0] == s@[from as int]);
            assert(s@.skip(from as int)[1] == s@[from as int + 1]);
            assert(s@.skip(from as int)[2] == s@[from as int + 2]);
        }
        match find_sep_from(s, from + 1) {
            Some(i) => Some(i),
            None => None,
        }
    }
}

fn check_scheme(s: &[u8], end: usize) -> (r: bool)
    requires
        end <= s@.len(),
    ensures
        r == valid_scheme(s@.take(end as int)),
{
    if end == 0 {
        return false;
    }
    let c0 = s[0];
    if !((65 <= c0 && c0 <= 90) || (97 <= c0 && c0 <= 122)) {
        return false;
    }
    let mut j: usize = 0;
    while j < end
        invariant
            j <= end <= s@.len(),
            forall|t: int| 0 <= t < j ==> is_scheme_byte(#[trigger] s@[t]),
        decreases end - j,
    {
        let b = s[j];
        let scheme_ok = ((65 <= b && b <= 90) || (97 <= b && b <= 122)) || (48 <= b && b <= 57)
            || b == 43 || b == 45 || b == 46;
        if !scheme_ok {
            proof {
                assert(s@.take(end as int)[j as int] == s@[j as int]);
                assert(!is_scheme_byte(s@.take(end as int)[j as int]));
            }
            return false;
        }
        j += 1;
    }
    proof {
        assert forall|t: int| 0 <= t < end implies is_scheme_byte(
            #[trigger] s@.take(end as int)[t],
        ) by {
            assert(s@.take(end as int)[t] == s@[t]);
        }
        assert(s@.take(end as int)[0] == s@[0]);
    }
    true
}

fn check_base_bytes(s: &[u8]) -> (r: bool)
    ensures
        r == forall|j: int| 0 <= j < s@.len() ==> is_base_byte(#[trigger] s@[j]),
{
    let mut j: usize = 0;
    while j < s.len()
        invariant
            j <= s@.len(),
            forall|t: int| 0 <= t < j ==> is_base_byte(#[trigger] s@[t]),
        decreases s@.len() - j,
    {
        let b = s[j];
        if !(33 <= b && b <= 126 && b != 63 && b != 35) {
            return false;
        }
        j += 1;
    }
    true
}

/// Builds the full request URL from a base URL string, an endpoint path
/// and query pairs, or reports that the base is malformed.
pub fn build_url(base: &str, path: &str, query: &Vec<(String, QueryValue)>) -> (r: Result<
    Vec<u8>,
    ClientError,
>)
    ensures
        r is Ok <==> base_ok(encode_utf8(base@)),
        r matches Ok(u) ==> u@ == built_url(
            encode_utf8(base@),
            encode_utf8(path@),
            query.deep_view(),
        ),
        r matches Err(e) ==> e matches ClientError::UrlParseError { url } && url@ == base@,
{
    let b: &[u8] = base.as_bytes();
    let sep = find_sep_from(b, 0);
    proof {
        assert(b@.skip(0) =~= b@);
    }
    let n: usize = b.len();
    let ok = match sep {
        Some(i) => check_scheme(b, i) && i + 3 < n && b[i + 3] != 47 && check_base_bytes(b),
        None => false,
    };
    if !ok {
        return Err(ClientError::UrlParseError { url: base.to_owned() });
    }
    let mut out: Vec<u8> = vstd::slice::slice_to_vec(b);
    if out.len() > 0 && out[out.len() - 1] == 47 {
        out.pop();
    }
    proof {
        assert(out@ =~= trim_slash(b@));
    }
    out.push(47);
    path_encode_onto(&mut out, path.as_bytes());
    proof {
        assert(out@ =~= trim_slash(b@) + path_part(encode_utf8(path@)));
    }
    let ghost before_query = out@;
    let mut k: usize = 0;
    while k < query.len()
        invariant
            k <= query@.len(),
            query.deep_view().len() == query@.len(),
            out@ == before_query + query_part(query.deep_view().take(k as int)),
        decreases query@.len() - k,
    {
        let pair = &query[k];
        if k == 0 {
            out.push(63);
        } else {
            out.push(38);
        }
        pct_encode_onto(&mut out, pair.0.as_str().as_bytes());
        out.push(61);
        let rv = pair.1.render();
        pct_encode_onto(&mut out, rv.as_slice());
        proof {
            let ghost q = query.deep_view();
            assert(q[k as int] == (query@[k as int].0@, query@[k as int].1.deep_view()));
            lemma_query_part_push(q.take(k as int), q[k as int]);
            assert(q.take(k as int + 1) =~= q.take(k as int).push(q[k as int]));
            if k == 0 {
                assert(out@ =~= before_query + query_part(q.take(k as int + 1)));
            } else {
                assert(out@ =~= before_query + query_part(q.take(k as int + 1)));
            }
        }
        k += 1;
    }
    proof {
        assert(query.deep_view().take(query@.len() as int) =~= query.deep_view());
    }
    Ok(out)
}

} // verus!
