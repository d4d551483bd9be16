//! One step of dispatching a request: what to do with the response that
//! came back.
//!
//! A `429 Too Many Requests` answer asks for a retry after the
//! server-directed wait ([`retry_after_seconds`], with a fixed fallback);
//! any other status completes the dispatch. A completed success carries
//! the body and the cache lifetime computed from the `Cache-Control`
//! headers ([`cache_lifetime_seconds`]); a completed failure carries the
//! parsed error envelope, or a parse error where the body holds none.

use vstd::prelude::*;
use vstd::string::{StrSliceExecFns, StringExecFns};

use crate::envelope::{is_ws, spec_parse_envelope};
use crate::errors::Error;
use crate::text::{chars_of, find_char, parse_u64_spec, spec_find_char};
use crate::token::spec_expiry;
use crate::Response;

verus! {

/// The wait a `Retry-After` header asks for: its value read as seconds,
/// or two seconds where the header is absent or unreadable.
pub open spec fn spec_retry_after(header: Option<Seq<char>>) -> u64 {
    match header {
        Some(h) => match parse_u64_spec(h) {
            Some(n) => n,
            None => 2,
        },
        None => 2,
    }
}

/// Read a `Retry-After` header's wait in seconds, defaulting to two.
pub fn retry_after_seconds(header: Option<&str>) -> (r: u64)
    ensures
        r == spec_retry_after(
            match header {
                Some(h) => Some(h@),
                None => None,
            },
        ),
{
    match header {
        Some(h) => match crate::text::parse_u64(h) {
            Some(n) => n,
            None => 2,
        },
        None => 2,
    }
}

/// `s` without leading whitespace.
pub open spec fn spec_trim_front(s: Seq<char>) -> Seq<char>
    decreases s.len(),
{
    if s.len() > 0 && is_ws(s[0]) {
        spec_trim_front(s.skip(1))
    } else {
        s
    }
}

/// `s` without trailing whitespace.
pub open spec fn spec_trim_back(s: Seq<char>) -> Seq<char>
    decreases s.len(),
{
    if s.len() > 0 && is_ws(s.last()) {
        spec_trim_back(s.drop_last())
    } else {
        s
    }
}

/// `s` without leading and trailing whitespace.
pub open spec fn spec_trim(s: Seq<char>) -> Seq<char> {
    spec_trim_front(spec_trim_back(s))
}

/// Whether `c` is JSON/header whitespace.
fn ws_char(c: char) -> (r: bool)
    ensures
        r == is_ws(c),
{
    c == ' ' || c == '\t' || c == '\n' || c == '\r'
}

fn trim_chars(v: &Vec<char>) -> (r: Vec<char>)
    ensures
        r@ == spec_trim(v@),
{
    proof {
        assert(v@.take(v@.len() as int) =~= v@);
    }
    let mut e = v.len();
    while e > 0 && ws_char(v[e - 1])
        invariant
            e <= v@.len(),
            spec_trim_back(v@) == spec_trim_back(v@.take(e as int)),
        decreases e,
    {
        proof {
            assert(v@.take(e as int).last() == v@[e - 1]);
            assert(v@.take(e as int).drop_last() =~= v@.take(e - 1));
        }
        e = e - 1;
    }
    proof {
        if e > 0 {
            assert(v@.take(e as int).last() == v@[e - 1]);
            assert(!is_ws(v@.take(e as int).last()));
        }
        assert(spec_trim_back(v@) == v@.take(e as int));
    }
    let mut s: usize = 0;
    while s < e && ws_char(v[s])
        invariant
            s <= e <= v@.len(),
            spec_trim_back(v@) == v@.take(e as int),
            spec_trim_front(v@.take(e as int)) == spec_trim_front(
                v@.subrange(s as int, e as int),
            ),
        decreases e - s,
    {
        proof {
            assert(v@.subrange(s as int, e as int)[0] == v@[s as int]);
            assert(v@.subrange(s as int, e as int).skip(1) =~= v@.subrange(s + 1, e as int));
        }
        s = s + 1;
    }
    proof {
        assert(spec_trim_front(v@.subrange(s as int, e as int)) == v@.subrange(
            s as int,
            e as int,
        ));
    }
    copy_range(v, s, e)
}

/// Whether two characters are equal up to ASCII case.
pub open spec fn spec_eq_ignore_case_char(a: char, b: char) -> bool {
    ||| a as u32 == b as u32
    ||| (65 <= a as u32 <= 90 && a as u32 + 32 == b as u32)
    ||| (65 <= b as u32 <= 90 && b as u32 + 32 == a as u32)
}

/// Whether two strings are equal up to ASCII case.
pub open spec fn spec_eq_ignore_case(a: Seq<char>, b: Seq<char>) -> bool {
    a.len() == b.len() && forall|i: int|
        0 <= i < a.len() ==> spec_eq_ignore_case_char(a[i], #[trigger] b[i])
}

/// Whether the first `k` characters of `t` name the `max-age` directive,
/// up to ASCII case.
fn is_max_age_name(t: &Vec<char>, k: usize) -> (r: bool)
    requires
        k <= t@.len(),
    ensures
        r == spec_eq_ignore_case(t@.take(k as int), "max-age"@),
{
    proof {
        reveal_strlit("max-age");
        assert(("max-age"@).len() == 7);
        assert(("max-age"@)[0] == 'm' && ("max-age"@)[1] == 'a' && ("max-age"@)[2] == 'x');
        assert(("max-age"@)[3] == '-' && ("max-age"@)[4] == 'a' && ("max-age"@)[5] == 'g');
        assert(("max-age"@)[6] == 'e');
    }
    if k != 7 {
        return false;
    }
    let r = eq_ic(t[0], 'm') && eq_ic(t[1], 'a') && eq_ic(t[2], 'x') && eq_ic(t[3], '-') && eq_ic(
        t[4],
        'a',
    ) && eq_ic(t[5], 'g') && eq_ic(t[6], 'e');
    proof {
        assert forall|j: int| 0 <= j < 7 implies t@.take(7)[j] == t@[j] by {}
        if r {
            assert(spec_eq_ignore_case(t@.take(k as int), "max-age"@));
        } else {
            assert(!spec_eq_ignore_case(t@.take(k as int), "max-age"@));
        }
    }
    r
}

/// Whether two characters are equal up to ASCII case.
fn eq_ic(a: char, b: char) -> (r: bool)
    ensures
        r == spec_eq_ignore_case_char(a, b),
{
    let x = a as u32;
    let y = b as u32;
    x == y || (65 <= x && x <= 90 && x + 32 == y) || (65 <= y && y <= 90 && y + 32 == x)
}

/// The seconds a single `Cache-Control` directive contributes: trimmed,
/// it must read `max-age` (up to ASCII case) before an `=`, and its
/// value after the `=` must read as seconds.
pub open spec fn spec_directive_max_age(piece: Seq<char>) -> Option<u64> {
    let t = spec_trim(piece);
    let k = spec_find_char(t, 0, '=');
    if k == t.len() {
        None
    } else if !spec_eq_ignore_case(t.take(k), "max-age"@) {
        None
    } else {
        parse_u64_spec(t.skip(k + 1))
    }
}

/// The characters of `v` between `from` and `to`, as a new vector.
fn copy_range(v: &Vec<char>, from: usize, to: usize) -> (r: Vec<char>)
    requires
        from <= to <= v@.len(),
    ensures
        r@ == v@.subrange(from as int, to as int),
{
    let mut r: Vec<char> = Vec::new();
    let mut i: usize = from;
    while i < to
        invariant
            from <= i <= to <= v@.len(),
            r@ == v@.subrange(from as int, i as int),
        decreases to - i,
    {
        r.push(v[i]);
        proof {
            assert(v@.subrange(from as int, i + 1).drop_last() =~= v@.subrange(
                from as int,
                i as int,
            ));
            assert(r@ =~= v@.subrange(from as int, i + 1));
        }
        i = i + 1;
    }
    r
}

fn directive_max_age(piece: Vec<char>) -> (r: Option<u64>)
    ensures
        r == spec_directive_max_age(piece@),
{
    let ghost p = piece@;
    let t = trim_chars(&piece);
    let k = find_char(&t, 0, '=');
    if k == t.len() {
        return None;
    }
    if !is_max_age_name(&t, k) {
        return None;
    }
    let value = copy_range(&t, k + 1, t.len());
    let mut s = String::new();
    let mut i: usize = 0;
    while i < value.len()
        invariant
            i <= value@.len(),
            s@ == value@.take(i as int),
        decreases value@.len() - i,
    {
        s.push(value[i]);
        proof {
            assert(value@.take(i + 1).drop_last() =~= value@.take(i as int));
            assert(s@ =~= value@.take(i + 1));
        }
        i = i + 1;
    }
    proof {
        assert(value@.take(value@.len() as int) =~= value@);
        assert(value@ =~= spec_trim(p).skip(k + 1));
    }
    crate::text::parse_u64(s.as_str())
}

/// The first `max-age` value among the comma-separated directives of
/// `h`, scanning from position `from`.
pub open spec fn spec_scan_directives(h: Seq<char>, from: int) -> Option<u64>
    decreases h.len() - from when 0 <= from <= h.len() via spec_scan_directives_decreases
{
    let k = spec_find_char(h, from, ',');
    let piece = h.subrange(from, k);
    match spec_directive_max_age(piece) {
        Some(n) => Some(n),
        None => if k < h.len() {
            spec_scan_directives(h, k + 1)
        } else {
            None
        },
    }
}

#[via_fn]
proof fn spec_scan_directives_decreases(h: Seq<char>, from: int) {
    crate::text::lemma_find_char_bounds(h, from, ',');
}

fn scan_directives(v: &Vec<char>, from: usize) -> (r: Option<u64>)
    requires
        from <= v@.len(),
    ensures
        r == spec_scan_directives(v@, from as int),
    decreases v@.len() - from,
{
    let k = find_char(v, from, ',');
    let piece = copy_range(v, from, k);
    match directive_max_age(piece) {
        Some(n) => Some(n),
        None => {
            if k < v.len() {
                scan_directives(v, k + 1)
            } else {
                None
            }
        },
    }
}

/// The first `max-age` value across all `Cache-Control` header values,
/// scanning the headers in order from index `i`.
pub open spec fn spec_scan_headers(hs: Seq<Seq<char>>, i: int) -> Option<u64>
    decreases hs.len() - i,
{
    if 0 <= i < hs.len() {
        match spec_scan_directives(hs[i], 0) {
            Some(n) => Some(n),
            None => spec_scan_headers(hs, i + 1),
        }
    } else {
        None
    }
}

/// The cache lifetime the `Cache-Control` headers ask for: the first
/// `max-age` directive found, or zero where none is present.
pub open spec fn spec_cache_lifetime(hs: Seq<Seq<char>>) -> u64 {
    match spec_scan_headers(hs, 0) {
        Some(n) => n,
        None => 0,
    }
}

/// Compute the cache lifetime in seconds from the `Cache-Control`
/// header values: the first `max-age=N` directive across all of them,
/// or zero.
pub fn cache_lifetime_seconds(headers: &Vec<String>) -> (r: u64)
    ensures
        r == spec_cache_lifetime(headers@.map_values(|h: String| h@)),
{
    let ghost hs = headers@.map_values(|h: String| h@);
    let mut i: usize = 0;
    while i < headers.len()
        invariant
            i <= headers@.len(),
            hs == headers@.map_values(|h: String| h@),
            spec_scan_headers(hs, 0) == spec_scan_headers(hs, i as int),
        decreases headers@.len() - i,
    {
        let v = crate::text::chars_of(headers[i].as_str());
        match scan_directives(&v, 0) {
            Some(n) => {
                proof {
                    assert(hs[i as int] == headers@[i as int]@);
                }
                return n;
            },
            None => {
                proof {
                    assert(hs[i as int] == headers@[i as int]@);
                }
            },
        }
        i = i + 1;
    }
    0
}

/// What one response tells the dispatcher to do next.
pub enum DispatchStep {
    /// The service asked for a retry: wait this many seconds and send
    /// the same request again.
    Retry {
        /// The wait before the retry, in seconds.
        wait_seconds: u64,
    },
    /// The dispatch is complete, with this outcome.
    Done(Result<Response<String>, Error>),
}

/// Whether `status` is a success status.
pub open spec fn spec_is_success(status: u16) -> bool {
    200 <= status < 300
}

/// Decide what one response means.
///
/// A 429 — and only a 429 — asks for a retry, after the `Retry-After`
/// wait or its two-second fallback. Any other status completes the
/// dispatch: a success yields the body with its cache expiry, computed
/// from the `Cache-Control` headers at instant `now`; a failure yields
/// the body's error envelope, or a parse error where the body holds
/// none.
pub fn on_response(
    status: u16,
    retry_after: Option<&str>,
    cache_control: &Vec<String>,
    body: String,
    now: u64,
) -> (r: DispatchStep)
    ensures
        status == 429 <==> (r matches DispatchStep::Retry { wait_seconds } && wait_seconds
            == spec_retry_after(
            match retry_after {
                Some(h) => Some(h@),
                None => None,
            },
        )),
        status != 429 && spec_is_success(status) ==> (r matches DispatchStep::Done(
            Ok(resp),
        ) && resp.data == body && resp.expires == spec_expiry(
            now,
            spec_cache_lifetime(cache_control@.map_values(|h: String| h@)),
        )),
        status != 429 && !spec_is_success(status) ==> match spec_parse_envelope(body@) {
            Some(t) => (r matches DispatchStep::Done(Err(Error::Endpoint(e))) && e.status as int
                == t.0 && e.message@ == t.1 && e.reason == t.2),
            None => (r matches DispatchStep::Done(Err(e)) && e is Parse),
        },
{
    if status == 429 {
        DispatchStep::Retry { wait_seconds: retry_after_seconds(retry_after) }
    } else if 200 <= status && status < 300 {
        let lifetime = cache_lifetime_seconds(cache_control);
        let expires = crate::token::token_expiry(now, lifetime);
        DispatchStep::Done(Ok(Response { data: body, expires }))
    } else {
        match crate::envelope::parse_error_envelope(body.as_str()) {
            Some(e) => DispatchStep::Done(Err(Error::Endpoint(e))),
            None => DispatchStep::Done(
                Err(Error::Parse(String::from_str("endpoint returned no error envelope"))),
            ),
        }
    }
}

/// The query pair that addresses a request to one device.
pub fn device_query(device: &str) -> (r: (&'static str, &str))
    ensures
        r.0@ == "device_id"@,
        r.1@ == device@,
{
    ("device_id", device)
}

/// For an endpoint that may legitimately have nothing to return, an
/// empty success body denotes no data rather than a parse failure.
pub fn opt_body(body: String) -> (r: Option<String>)
    ensures
        body@.len() == 0 ==> r is None,
        body@.len() > 0 ==> (r matches Some(b) && b == body),
{
    if body.as_str().is_empty() {
        None
    } else {
        Some(body)
    }
}

} // verus!
