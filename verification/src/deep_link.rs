use vstd::prelude::*;
use vstd::string::*;

verus! {

/// Index of the first occurrence of `c` in `s` at or after `from`; the
/// length of the sequence when there is none.
pub open spec fn find_from(s: Seq<char>, c: char, from: int) -> int
    decreases s.len() - from,
{
    if from >= s.len() {
        s.len() as int
    } else if s[from] == c {
        from
    } else {
        find_from(s, c, from + 1)
    }
}

pub proof fn lemma_find_from(s: Seq<char>, c: char, from: int)
    requires
        0 <= from <= s.len(),
    ensures
        from <= find_from(s, c, from) <= s.len(),
        find_from(s, c, from) < s.len() ==> s[find_from(s, c, from)] == c,
        forall|j: int| from <= j < find_from(s, c, from) ==> s[j] != c,
    decreases s.len() - from,
{
    if from < s.len() && s[from] != c {
        lemma_find_from(s, c, from + 1);
    }
}

/// Whether `pat` occurs in `s` starting at index `i`.
pub open spec fn contains_at(s: Seq<char>, pat: Seq<char>, i: int) -> bool {
    0 <= i && i + pat.len() <= s.len() && s.subrange(i, i + pat.len() as int) == pat
}

/// Whether `pat` occurs anywhere in `s`.
pub open spec fn contains_pattern(s: Seq<char>, pat: Seq<char>) -> bool {
    exists|i: int| contains_at(s, pat, i)
}

/// Whether a query segment is the one a lookup for `key` picks: it starts
/// with `key` immediately followed by '='.
pub open spec fn segment_selects(seg: Seq<char>, key: Seq<char>) -> bool {
    seg.len() > key.len() && seg.subrange(0, key.len() as int) == key && seg[key.len() as int]
        == '='
}

/// The value a selected segment yields: the characters strictly between the
/// segment's first '=' and its second '=' or, failing one, its end.
pub open spec fn segment_value(seg: Seq<char>) -> Seq<char> {
    let e1 = find_from(seg, '=', 0);
    seg.subrange(e1 + 1, find_from(seg, '=', e1 + 1))
}

/// Scans the query `q` from `start`, one '&'-separated segment at a time,
/// for the first segment that `segment_selects` for `key`.
pub open spec fn extract_from_query(q: Seq<char>, key: Seq<char>, start: int) -> Option<Seq<char>>
    decreases q.len() - start,
        via extract_from_query_decreases
{
    if start < 0 || start > q.len() {
        None
    } else {
        let amp = find_from(q, '&', start);
        let seg = q.subrange(start, amp);
        if segment_selects(seg, key) {
            Some(segment_value(seg))
        } else if amp >= q.len() {
            None
        } else {
            extract_from_query(q, key, amp + 1)
        }
    }
}

#[via_fn]
proof fn extract_from_query_decreases(q: Seq<char>, key: Seq<char>, start: int) {
    if 0 <= start <= q.len() {
        lemma_find_from(q, '&', start);
    }
}

/// What a query-parameter lookup returns: the part of `url` between its
/// first '?' and the next '?' or the end is cut at each '&'; the first
/// segment beginning with `param` followed by '=' yields that segment's
/// value; no '?' or no such segment yields nothing.
pub open spec fn spec_extract_query_param(url: Seq<char>, param: Seq<char>) -> Option<Seq<char>> {
    let qm = find_from(url, '?', 0);
    if qm >= url.len() {
        None
    } else {
        extract_from_query(url.subrange(qm + 1, find_from(url, '?', qm + 1)), param, 0)
    }
}

/// The characters of `s`, in order, as a vector.
fn chars_of(s: &str) -> (v: Vec<char>)
    ensures
        v@ == s@,
{
    let n = s.unicode_len();
    let mut v: Vec<char> = Vec::new();
    let mut i: usize = 0;
    while i < n
        invariant
            i <= n,
            n == s@.len(),
            v@ == s@.subrange(0, i as int),
        decreases n - i,
    {
        v.push(s.get_char(i));
        i += 1;
        assert(v@ =~= s@.subrange(0, i as int));
    }
    assert(v@ =~= s@);
    v
}

/// The characters of `v` in `[from, to)`, as their own vector.
fn copy_range(v: &Vec<char>, from: usize, to: usize) -> (r: Vec<char>)
    requires
        from <= to <= v@.len(),
    ensures
        r@ == v@.subrange(from as int, to as int),
{
    let mut r: Vec<char> = Vec::new();
    let mut i: usize = from;
    while i < to
        invariant
            from <= i <= to <= v@.len(),
            r@ == v@.subrange(from as int, i as int),
        decreases to - i,
    {
        r.push(v[i]);
        i += 1;
        assert(r@ =~= v@.subrange(from as int, i as int));
    }
    r
}

/// First index of `c` in `v` at or after `from`; `v.len()` when absent.
fn find_char_from(v: &Vec<char>, c: char, from: usize) -> (r: usize)
    requires
        from <= v@.len(),
    ensures
        r == find_from(v@, c, from as int),
        from <= r <= v@.len(),
{
    let n = v.len();
    let mut i: usize = from;
    while i < n
        invariant
            from <= i <= n,
            n == v@.len(),
            find_from(v@, c, from as int) == find_from(v@, c, i as int),
        decreases n - i,
    {
        if v[i] == c {
            assert(find_from(v@, c, i as int) == i as int);
            return i;
        }
        assert(find_from(v@, c, i as int) == find_from(v@, c, i as int + 1));
        i += 1;
    }
    assert(find_from(v@, c, n as int) == n as int);
    i
}

/// Whether `pat` occurs in `v` starting at `i`.
fn matches_at(v: &Vec<char>, pat: &Vec<char>, i: usize) -> (b: bool)
    requires
        i + pat@.len() <= v@.len(),
    ensures
        b == contains_at(v@, pat@, i as int),
{
    let n = v.len();
    let m = pat.len();
    let mut j: usize = 0;
    while j < m
        invariant
            j <= m,
            m == pat@.len(),
            n == v@.len(),
            i + m <= n,
            forall|t: int| 0 <= t < j ==> v@[i + t] == pat@[t],
        decreases m - j,
    {
        if v[i + j] != pat[j] {
            proof {
                let sub = v@.subrange(i as int, i + m as int);
                assert(sub[j as int] == v@[i + j]);
                assert(sub != pat@);
            }
            return false;
        }
        j += 1;
    }
    proof {
        assert(v@.subrange(i as int, i + m as int) =~= pat@);
    }
    true
}

/// Whether `pat` occurs anywhere in `v`.
fn contains_pat(v: &Vec<char>, pat: &Vec<char>) -> (b: bool)
    ensures
        b == contains_pattern(v@, pat@),
{
    let n = v.len();
    let m = pat.len();
    if m == 0 {
        proof {
            assert(v@.subrange(0, 0) =~= pat@);
            assert(contains_at(v@, pat@, 0));
        }
        return true;
    }
    if m > n {
        proof {
            if contains_pattern(v@, pat@) {
                let i = choose|i: int| contains_at(v@, pat@, i);
                assert(i + pat@.len() <= v@.len());
            }
        }
        return false;
    }
    let mut i: usize = 0;
    while i <= n - m
        invariant
            1 <= m <= n,
            i <= n - m + 1,
            n == v@.len(),
            m == pat@.len(),
            forall|t: int| 0 <= t < i ==> !contains_at(v@, pat@, t),
        decreases n - m + 1 - i,
    {
        if matches_at(v, pat, i) {
            return true;
        }
        i += 1;
    }
    proof {
        if contains_pattern(v@, pat@) {
            let t = choose|t: int| contains_at(v@, pat@, t);
            assert(!contains_at(v@, pat@, t));
        }
    }
    false
}

/// Looks `param` up in `url`'s query string, as a raw first-match scan with
/// no percent-decoding: the query runs from the first '?' to the next '?'
/// or the end, segments are split at '&', the first segment reading
/// `param=` is picked, and its value runs to the segment's next '=' or its
/// end.  Returns `Some` exactly when `url` has a query string with such a
/// segment.
pub fn extract_query_param(url: &str, param: &str) -> (r: Option<String>)
    ensures
        r is Some <==> spec_extract_query_param(url@, param@) is Some,
        r matches Some(value) ==> value@ == spec_extract_query_param(url@, param@)->0,
{
    let u = chars_of(url);
    let key = chars_of(param);
    let klen = key.len();
    let qm = find_char_from(&u, '?', 0);
    if qm == u.len() {
        return None;
    }
    let qend = find_char_from(&u, '?', qm + 1);
    // The query: everything strictly between the first '?' and `qend`.
    let q = copy_range(&u, qm + 1, qend);
    let mut start: usize = 0;
    loop
        invariant
            start <= q@.len(),
            qm + 1 <= qend,
            q@ == u@.subrange(qm + 1 as int, qend as int),
            u@ == url@,
            key@ == param@,
            klen == key@.len(),
            qm == find_from(url@, '?', 0),
            qm < url@.len(),
            qend == find_from(url@, '?', qm + 1 as int),
            qend <= url@.len(),
            extract_from_query(q@, key@, 0) == extract_from_query(q@, key@, start as int),
        decreases q@.len() - start,
    {
        proof {
            assert(spec_extract_query_param(url@, param@) == extract_from_query(q@, key@, 0));
        }
        let amp = find_char_from(&q, '&', start);
        let seg = copy_range(&q, start, amp);
        // Does this segment read `param=`?
        let selected = if seg.len() > klen {
            if matches_at(&seg, &key, 0) {
                seg[klen] == '='
            } else {
                false
            }
        } else {
            false
        };
        assert(selected == segment_selects(seg@, key@));
        if selected {
            proof {
                lemma_find_from(seg@, '=', 0);
            }
            let e1 = find_char_from(&seg, '=', 0);
            proof {
                assert(seg@[klen as int] == '=');
                if e1 > klen {
                    assert(seg@[klen as int] != '=');
                }
                assert(e1 <= klen < seg@.len());
            }
            let e2 = find_char_from(&seg, '=', e1 + 1);
            proof {
                assert(q@.len() == qend - qm - 1);
                assert(e1 + 1 <= amp - start);
                assert(e2 <= amp - start);
            }
            // Map the value's segment-relative bounds back onto `url` and
            // slice it straight out of the input string.
            let a = qm + 1 + start + e1 + 1;
            let b = qm + 1 + start + e2;
            let value = url.substring_char(a, b).to_owned();
            proof {
                assert(extract_from_query(q@, key@, start as int) == Some(segment_value(seg@)));
                assert(value@ =~= segment_value(seg@));
            }
            return Some(value);
        }
        if amp == q.len() {
            assert(extract_from_query(q@, key@, start as int) is None);
            return None;
        }
        assert(extract_from_query(q@, key@, start as int) == extract_from_query(
            q@,
            key@,
            amp + 1 as int,
        ));
        start = amp + 1;
    }
}

/// The event payload handed to the embedding application's frontend when an
/// authorization redirect arrives: the authorization code, or the error the
/// authorization server reported.
#[derive(Clone, Debug)]
pub struct OAuthCallbackPayload {
    pub code: String,
    pub error: Option<String>,
}

impl View for OAuthCallbackPayload {
    type V = (Seq<char>, Option<Seq<char>>);

    open spec fn view(&self) -> Self::V {
        (
            self.code@,
            match self.error {
                Some(e) => Some(e@),
                None => None,
            },
        )
    }
}

/// How a redirect URL is classified: a URL mentioning `code=` yields its
/// `code` query parameter with no error; otherwise one mentioning `error=`
/// yields an empty code and its `error` query parameter; anything else, or a
/// mention whose parameter cannot actually be extracted, yields nothing.
pub open spec fn spec_oauth_event(url: Seq<char>) -> Option<(Seq<char>, Option<Seq<char>>)> {
    if contains_pattern(url, "code="@) {
        match spec_extract_query_param(url, "code"@) {
            Some(code) => Some((code, None)),
            None => None,
        }
    } else if contains_pattern(url, "error="@) {
        match spec_extract_query_param(url, "error"@) {
            Some(e) => Some((Seq::empty(), Some(e))),
            None => None,
        }
    } else {
        None
    }
}

/// Classifies a redirect URL delivered through the URL-scheme listener and
/// builds the payload to forward, if any.
pub fn oauth_event_for_url(url: &str) -> (r: Option<OAuthCallbackPayload>)
    ensures
        r is Some <==> spec_oauth_event(url@) is Some,
        r matches Some(p) ==> p@ == spec_oauth_event(url@)->0,
{
    let u = chars_of(url);
    let code_pat = chars_of("code=");
    if contains_pat(&u, &code_pat) {
        match extract_query_param(url, "code") {
            Some(code) => Some(OAuthCallbackPayload { code, error: None }),
            None => None,
        }
    } else {
        let error_pat = chars_of("error=");
        if contains_pat(&u, &error_pat) {
            match extract_query_param(url, "error") {
                Some(e) => Some(
                    OAuthCallbackPayload { code: String::new(), error: Some(e) },
                ),
                None => None,
            }
        } else {
            None
        }
    }
}

} // verus!
