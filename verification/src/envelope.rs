//! The error envelope the resource endpoints return:
//! `{"error":{"status":404,"message":"Not found","reason":null}}`.
//!
//! [`parse_error_envelope`] reads such a body into an
//! [`EndpointError`]; [`error_envelope_to_json`] writes one back. The
//! parser accepts the envelope as the service writes it — the fields in
//! the order `status`, `message`, then optionally `reason` (a reason name
//! or `null`) — with arbitrary whitespace between tokens and the JSON
//! string escapes `\" \\ \/ \n \r \t \b \f` inside strings. Every
//! function is mirrored by a spec function that states exactly which
//! bodies are accepted and what they denote.

use vstd::prelude::*;
use vstd::string::{StrSliceExecFns, StringExecFns};

use crate::errors::{spec_reason_from_wire, spec_wire_name, AuthError, EndpointError, PlayerErrorReason};
use crate::text::{dec_digits_of, dec_value, is_digit};

verus! {

/// JSON whitespace.
pub open spec fn is_ws(c: char) -> bool {
    c == ' ' || c == '\t' || c == '\n' || c == '\r'
}

/// The first position at or after `i` that holds no whitespace.
pub open spec fn spec_skip_ws(s: Seq<char>, i: int) -> int
    decreases s.len() - i,
{
    if 0 <= i < s.len() && is_ws(s[i]) {
        spec_skip_ws(s, i + 1)
    } else {
        i
    }
}

fn skip_ws(v: &Vec<char>, i: usize) -> (r: usize)
    requires
        i <= v@.len(),
    ensures
        r == spec_skip_ws(v@, i as int),
        i <= r <= v@.len(),
    decreases v@.len() - i,
{
    if i < v.len() {
        let c = v[i];
        if c == ' ' || c == '\t' || c == '\n' || c == '\r' {
            return skip_ws(v, i + 1);
        }
    }
    i
}

/// The character a string escape denotes, or nothing for an escape the
/// grammar does not accept.
pub open spec fn spec_unescape(e: char) -> Option<char> {
    if e == '"' {
        Some('"')
    } else if e == '\\' {
        Some('\\')
    } else if e == '/' {
        Some('/')
    } else if e == 'n' {
        Some('\n')
    } else if e == 'r' {
        Some('\r')
    } else if e == 't' {
        Some('\t')
    } else if e == 'b' {
        Some('\u{8}')
    } else if e == 'f' {
        Some('\u{c}')
    } else {
        None
    }
}

fn unescape(e: char) -> (r: Option<char>)
    ensures
        r == spec_unescape(e),
{
    if e == '"' {
        Some('"')
    } else if e == '\\' {
        Some('\\')
    } else if e == '/' {
        Some('/')
    } else if e == 'n' {
        Some('\n')
    } else if e == 'r' {
        Some('\r')
    } else if e == 't' {
        Some('\t')
    } else if e == 'b' {
        Some('\u{8}')
    } else if e == 'f' {
        Some('\u{c}')
    } else {
        None
    }
}

/// The rest of a JSON string read from position `i` (just after the
/// opening quote or some consumed prefix): the accumulated content and
/// the position after the closing quote.
pub open spec fn spec_string_body(s: Seq<char>, i: int, acc: Seq<char>) -> Option<(Seq<char>, int)>
    decreases s.len() - i,
{
    if !(0 <= i < s.len()) {
        None
    } else if s[i] == '"' {
        Some((acc, i + 1))
    } else if s[i] == '\\' {
        if i + 1 >= s.len() {
            None
        } else {
            match spec_unescape(s[i + 1]) {
                Some(c) => spec_string_body(s, i + 2, acc.push(c)),
                None => None,
            }
        }
    } else {
        spec_string_body(s, i + 1, acc.push(s[i]))
    }
}

fn string_body(v: &Vec<char>, i: usize, acc: String) -> (r: Option<(String, usize)>)
    requires
        i <= v@.len(),
    ensures
        match r {
            Some(p) => {
                &&& spec_string_body(v@, i as int, acc@) == Some((p.0@, p.1 as int))
                &&& i < p.1 <= v@.len()
            },
            None => spec_string_body(v@, i as int, acc@) is None,
        },
    decreases v@.len() - i,
{
    if i >= v.len() {
        return None;
    }
    let c = v[i];
    if c == '"' {
        Some((acc, i + 1))
    } else if c == '\\' {
        if i + 1 >= v.len() {
            return None;
        }
        match unescape(v[i + 1]) {
            Some(u) => {
                let mut acc = acc;
                acc.push(u);
                string_body(v, i + 2, acc)
            },
            None => None,
        }
    } else {
        let mut acc = acc;
        acc.push(c);
        string_body(v, i + 1, acc)
    }
}

/// A JSON string starting at `i`: its content and the position after the
/// closing quote.
pub open spec fn spec_string(s: Seq<char>, i: int) -> Option<(Seq<char>, int)> {
    if 0 <= i < s.len() && s[i] == '"' {
        spec_string_body(s, i + 1, Seq::empty())
    } else {
        None
    }
}

fn parse_string(v: &Vec<char>, i: usize) -> (r: Option<(String, usize)>)
    requires
        i <= v@.len(),
    ensures
        match r {
            Some(p) => {
                &&& spec_string(v@, i as int) == Some((p.0@, p.1 as int))
                &&& i < p.1 <= v@.len()
            },
            None => spec_string(v@, i as int) is None,
        },
{
    if i < v.len() && v[i] == '"' {
        string_body(v, i + 1, String::new())
    } else {
        None
    }
}

/// The position after the run of digits starting at `i`.
pub open spec fn spec_digit_run_end(s: Seq<char>, i: int) -> int
    decreases s.len() - i,
{
    if 0 <= i < s.len() && is_digit(s[i]) {
        spec_digit_run_end(s, i + 1)
    } else {
        i
    }
}

fn digit_run_end(v: &Vec<char>, i: usize) -> (r: usize)
    requires
        i <= v@.len(),
    ensures
        r == spec_digit_run_end(v@, i as int),
        i <= r <= v@.len(),
    decreases v@.len() - i,
{
    if i < v.len() {
        let c = v[i] as u32;
        if 48 <= c && c <= 57 {
            return digit_run_end(v, i + 1);
        }
    }
    i
}

/// A JSON number read as a plain digit run starting at `i`: its value
/// and the position after the run. The envelope grammar carries no
/// signs, fractions or exponents.
pub open spec fn spec_number(s: Seq<char>, i: int) -> Option<(int, int)> {
    let j = spec_digit_run_end(s, i);
    if j > i {
        Some((dec_value(s.subrange(i, j)), j))
    } else {
        None
    }
}

/// Every character of a digit run is a digit.
proof fn lemma_digit_run_digits(s: Seq<char>, i: int, j: int)
    requires
        0 <= i,
        j == spec_digit_run_end(s, i),
    ensures
        forall|k: int| i <= k < j ==> is_digit(#[trigger] s[k]),
    decreases s.len() - i,
{
    if 0 <= i < s.len() && is_digit(s[i]) {
        lemma_digit_run_digits(s, i + 1, j);
    }
}

/// Read the digit run starting at `i` as a status code, accepting only
/// the values the wire can carry.
fn parse_status(v: &Vec<char>, i: usize) -> (r: Option<(u16, usize)>)
    requires
        i <= v@.len(),
    ensures
        match r {
            Some(p) => {
                &&& spec_number(v@, i as int) == Some((p.0 as int, p.1 as int))
                &&& 100 <= p.0 < 1000
                &&& i < p.1 <= v@.len()
            },
            None => match spec_number(v@, i as int) {
                Some(n) => !(100 <= n.0 < 1000),
                None => true,
            },
        },
{
    let j = digit_run_end(v, i);
    if j == i {
        return None;
    }
    proof {
        lemma_digit_run_digits(v@, i as int, j as int);
    }
    let ghost digits = v@.subrange(i as int, j as int);
    let mut acc: u32 = 0;
    let mut k: usize = i;
    while k < j
        invariant
            i <= k <= j <= v@.len(),
            digits == v@.subrange(i as int, j as int),
            forall|t: int| i <= t < j ==> is_digit(#[trigger] v@[t]),
            acc <= 1000,
            acc == dec_value(digits.take(k - i)) || (acc == 1000 && dec_value(
                digits.take(k - i),
            ) >= 1000),
        decreases j - k,
    {
        let c = v[k] as u32;
        assert(is_digit(v@[k as int]));
        let d = c - 48;
        proof {
            assert(digits.take(k + 1 - i).drop_last() =~= digits.take(k - i));
            assert(digits.take(k + 1 - i).last() == v@[k as int]);
            assert forall|t: int| 0 <= t < k - i implies is_digit(
                #[trigger] digits.take(k - i)[t],
            ) by {
                assert(digits.take(k - i)[t] == v@[i + t]);
            }
            crate::text::lemma_dec_value_nonneg(digits.take(k - i));
            assert(dec_value(digits.take(k + 1 - i)) == dec_value(digits.take(k - i)) * 10 + d);
        }
        if acc >= 1000 {
            acc = 1000;
            proof {
                assert(dec_value(digits.take(k + 1 - i)) >= 1000);
            }
        } else {
            acc = acc * 10 + d;
            if acc > 1000 {
                acc = 1000;
            }
        }
        k = k + 1;
    }
    proof {
        assert(digits.take(j - i) =~= digits);
    }
    if acc >= 100 && acc < 1000 {
        Some((acc as u16, j))
    } else {
        None
    }
}

/// Whether the literal `null` stands at position `i`.
pub open spec fn spec_null_at(s: Seq<char>, i: int) -> bool {
    &&& 0 <= i
    &&& i + 4 <= s.len()
    &&& s[i] == 'n'
    &&& s[i + 1] == 'u'
    &&& s[i + 2] == 'l'
    &&& s[i + 3] == 'l'
}

fn null_at(v: &Vec<char>, i: usize) -> (r: bool)
    requires
        i <= v@.len(),
    ensures
        r == spec_null_at(v@, i as int),
{
    let n = v.len();
    n >= 4 && i <= n - 4 && v[i] == 'n' && v[i + 1] == 'u' && v[i + 2] == 'l' && v[i + 3] == 'l'
}

/// Whether character `c` stands at position `i`.
pub open spec fn spec_char_at(s: Seq<char>, i: int, c: char) -> bool {
    0 <= i < s.len() && s[i] == c
}

fn char_at(v: &Vec<char>, i: usize, c: char) -> (r: bool)
    requires
        i <= v@.len(),
    ensures
        r == spec_char_at(v@, i as int, c),
{
    i < v.len() && v[i] == c
}

/// The reason field's content read from position `i`: `null` denotes no
/// reason, a known wire name denotes that reason, and anything else is
/// refused. Yields the reason and the position after the field value.
pub open spec fn spec_reason_value(s: Seq<char>, i: int) -> Option<(
    Option<PlayerErrorReason>,
    int,
)> {
    if spec_null_at(s, i) {
        Some((None, i + 4))
    } else {
        match spec_string(s, i) {
            Some(p) => match spec_reason_from_wire(p.0) {
                Some(reason) => Some((Some(reason), p.1)),
                None => None,
            },
            None => None,
        }
    }
}

fn parse_reason_value(v: &Vec<char>, i: usize) -> (r: Option<(Option<PlayerErrorReason>, usize)>)
    requires
        i <= v@.len(),
    ensures
        match r {
            Some(p) => {
                &&& spec_reason_value(v@, i as int) == Some((p.0, p.1 as int))
                &&& i < p.1 <= v@.len()
            },
            None => spec_reason_value(v@, i as int) is None,
        },
{
    let _n = v.len();
    if null_at(v, i) {
        Some((None, i + 4))
    } else {
        match parse_string(v, i) {
            Some(p) => match crate::errors::reason_from_wire(&p.0) {
                Some(reason) => Some((Some(reason), p.1)),
                None => None,
            },
            None => None,
        }
    }
}

/// What an error-envelope body denotes: the status, the message, and the
/// optional reason — or nothing where the body does not follow the
/// envelope grammar.
pub open spec fn spec_parse_envelope(s: Seq<char>) -> Option<(
    int,
    Seq<char>,
    Option<PlayerErrorReason>,
)> {
    let i0 = spec_skip_ws(s, 0);
    if !spec_char_at(s, i0, '{') {
        None
    } else {
        let i1 = spec_skip_ws(s, i0 + 1);
        match spec_string(s, i1) {
            Some(k0) => {
                if k0.0 != "error"@ {
                    None
                } else {
                    let i2 = spec_skip_ws(s, k0.1);
                    if !spec_char_at(s, i2, ':') {
                        None
                    } else {
                        let i3 = spec_skip_ws(s, i2 + 1);
                        spec_parse_inner(s, i3)
                    }
                }
            },
            None => None,
        }
    }
}

/// The inner `{"status":…,"message":…[,"reason":…]}` object starting at
/// `i`, followed by the closing brace of the envelope and the end of the
/// body.
pub open spec fn spec_parse_inner(s: Seq<char>, i: int) -> Option<(
    int,
    Seq<char>,
    Option<PlayerErrorReason>,
)> {
    if !spec_char_at(s, i, '{') {
        None
    } else {
        let i0 = spec_skip_ws(s, i + 1);
        match spec_string(s, i0) {
            Some(k1) => {
                if k1.0 != "status"@ {
                    None
                } else {
                    let i1 = spec_skip_ws(s, k1.1);
                    if !spec_char_at(s, i1, ':') {
                        None
                    } else {
                        match spec_number(s, spec_skip_ws(s, i1 + 1)) {
                            Some(n) => {
                                if !(100 <= n.0 < 1000) {
                                    None
                                } else {
                                    spec_parse_after_status(s, n.1, n.0)
                                }
                            },
                            None => None,
                        }
                    }
                }
            },
            None => None,
        }
    }
}

/// The `,"message":…` part at `i`, given the parsed status.
pub open spec fn spec_parse_after_status(s: Seq<char>, i: int, status: int) -> Option<(
    int,
    Seq<char>,
    Option<PlayerErrorReason>,
)> {
    let i0 = spec_skip_ws(s, i);
    if !spec_char_at(s, i0, ',') {
        None
    } else {
        let i1 = spec_skip_ws(s, i0 + 1);
        match spec_string(s, i1) {
            Some(k2) => {
                if k2.0 != "message"@ {
                    None
                } else {
                    let i2 = spec_skip_ws(s, k2.1);
                    if !spec_char_at(s, i2, ':') {
                        None
                    } else {
                        match spec_string(s, spec_skip_ws(s, i2 + 1)) {
                            Some(msg) => spec_parse_after_message(s, msg.1, status, msg.0),
                            None => None,
                        }
                    }
                }
            },
            None => None,
        }
    }
}

/// The optional `,"reason":…` part and the closing braces at `i`, given
/// the parsed status and message.
pub open spec fn spec_parse_after_message(
    s: Seq<char>,
    i: int,
    status: int,
    message: Seq<char>,
) -> Option<(int, Seq<char>, Option<PlayerErrorReason>)> {
    let i0 = spec_skip_ws(s, i);
    if spec_char_at(s, i0, '}') {
        spec_parse_end(s, i0 + 1, status, message, None)
    } else if !spec_char_at(s, i0, ',') {
        None
    } else {
        let i1 = spec_skip_ws(s, i0 + 1);
        match spec_string(s, i1) {
            Some(k3) => {
                if k3.0 != "reason"@ {
                    None
                } else {
                    let i2 = spec_skip_ws(s, k3.1);
                    if !spec_char_at(s, i2, ':') {
                        None
                    } else {
                        match spec_reason_value(s, spec_skip_ws(s, i2 + 1)) {
                            Some(p) => {
                                let i3 = spec_skip_ws(s, p.1);
                                if !spec_char_at(s, i3, '}') {
                                    None
                                } else {
                                    spec_parse_end(s, i3 + 1, status, message, p.0)
                                }
                            },
                            None => None,
                        }
                    }
                }
            },
            None => None,
        }
    }
}

/// The envelope's closing brace and the end of the body at `i`.
pub open spec fn spec_parse_end(
    s: Seq<char>,
    i: int,
    status: int,
    message: Seq<char>,
    reason: Option<PlayerErrorReason>,
) -> Option<(int, Seq<char>, Option<PlayerErrorReason>)> {
    let i0 = spec_skip_ws(s, i);
    if !spec_char_at(s, i0, '}') {
        None
    } else if spec_skip_ws(s, i0 + 1) != s.len() {
        None
    } else {
        Some((status, message, reason))
    }
}

/// Parse an error-envelope body into an [`EndpointError`].
///
/// Returns `None` exactly where the body does not follow the envelope
/// grammar that [`spec_parse_envelope`] states.
pub fn parse_error_envelope(body: &str) -> (r: Option<EndpointError>)
    ensures
        match r {
            Some(e) => {
                &&& spec_parse_envelope(body@) == Some((e.status as int, e.message@, e.reason))
                &&& e.wf()
            },
            None => spec_parse_envelope(body@) is None,
        },
{
    let v = crate::text::chars_of(body);
    let i0 = skip_ws(&v, 0);
    if !char_at(&v, i0, '{') {
        return None;
    }
    let i1 = skip_ws(&v, i0 + 1);
    let k0 = match parse_string(&v, i1) {
        Some(k0) => k0,
        None => {
            return None;
        },
    };
    if !crate::text::string_eq_lit(&k0.0, "error") {
        return None;
    }
    let i2 = skip_ws(&v, k0.1);
    if !char_at(&v, i2, ':') {
        return None;
    }
    let i3 = skip_ws(&v, i2 + 1);
    parse_inner(&v, i3)
}

fn parse_inner(v: &Vec<char>, i: usize) -> (r: Option<EndpointError>)
    requires
        i <= v@.len(),
    ensures
        match r {
            Some(e) => {
                &&& spec_parse_inner(v@, i as int) == Some((e.status as int, e.message@, e.reason))
                &&& e.wf()
            },
            None => spec_parse_inner(v@, i as int) is None,
        },
{
    let _n = v.len();
    if !char_at(v, i, '{') {
        return None;
    }
    let i0 = skip_ws(v, i + 1);
    let k1 = match parse_string(v, i0) {
        Some(k1) => k1,
        None => {
            return None;
        },
    };
    if !crate::text::string_eq_lit(&k1.0, "status") {
        return None;
    }
    let i1 = skip_ws(v, k1.1);
    if !char_at(v, i1, ':') {
        return None;
    }
    let n = match parse_status(v, skip_ws(v, i1 + 1)) {
        Some(n) => n,
        None => {
            return None;
        },
    };
    parse_after_status(v, n.1, n.0)
}

fn parse_after_status(v: &Vec<char>, i: usize, status: u16) -> (r: Option<EndpointError>)
    requires
        i <= v@.len(),
        100 <= status < 1000,
    ensures
        match r {
            Some(e) => {
                &&& spec_parse_after_status(v@, i as int, status as int) == Some(
                    (e.status as int, e.message@, e.reason),
                )
                &&& e.wf()
            },
            None => spec_parse_after_status(v@, i as int, status as int) is None,
        },
{
    let _n = v.len();
    let i0 = skip_ws(v, i);
    if !char_at(v, i0, ',') {
        return None;
    }
    let i1 = skip_ws(v, i0 + 1);
    let k2 = match parse_string(v, i1) {
        Some(k2) => k2,
        None => {
            return None;
        },
    };
    if !crate::text::string_eq_lit(&k2.0, "message") {
        return None;
    }
    let i2 = skip_ws(v, k2.1);
    if !char_at(v, i2, ':') {
        return None;
    }
    let msg = match parse_string(v, skip_ws(v, i2 + 1)) {
        Some(msg) => msg,
        None => {
            return None;
        },
    };
    parse_after_message(v, msg.1, status, msg.0)
}

fn parse_after_message(v: &Vec<char>, i: usize, status: u16, message: String) -> (r: Option<
    EndpointError,
>)
    requires
        i <= v@.len(),
        100 <= status < 1000,
    ensures
        match r {
            Some(e) => {
                &&& spec_parse_after_message(v@, i as int, status as int, message@) == Some(
                    (e.status as int, e.message@, e.reason),
                )
                &&& e.wf()
            },
            None => spec_parse_after_message(v@, i as int, status as int, message@) is None,
        },
{
    let _n = v.len();
    let i0 = skip_ws(v, i);
    if char_at(v, i0, '}') {
        return parse_end(v, i0 + 1, status, message, None);
    }
    if !char_at(v, i0, ',') {
        return None;
    }
    let i1 = skip_ws(v, i0 + 1);
    let k3 = match parse_string(v, i1) {
        Some(k3) => k3,
        None => {
            return None;
        },
    };
    if !crate::text::string_eq_lit(&k3.0, "reason") {
        return None;
    }
    let i2 = skip_ws(v, k3.1);
    if !char_at(v, i2, ':') {
        return None;
    }
    let p = match parse_reason_value(v, skip_ws(v, i2 + 1)) {
        Some(p) => p,
        None => {
            return None;
        },
    };
    let i3 = skip_ws(v, p.1);
    if !char_at(v, i3, '}') {
        return None;
    }
    parse_end(v, i3 + 1, status, message, p.0)
}

fn parse_end(
    v: &Vec<char>,
    i: usize,
    status: u16,
    message: String,
    reason: Option<PlayerErrorReason>,
) -> (r: Option<EndpointError>)
    requires
        i <= v@.len(),
        100 <= status < 1000,
    ensures
        match r {
            Some(e) => {
                &&& spec_parse_end(v@, i as int, status as int, message@, reason) == Some(
                    (e.status as int, e.message@, e.reason),
                )
                &&& e.wf()
            },
            None => spec_parse_end(v@, i as int, status as int, message@, reason) is None,
        },
{
    let _n = v.len();
    let i0 = skip_ws(v, i);
    if !char_at(v, i0, '}') {
        return None;
    }
    if skip_ws(v, i0 + 1) != v.len() {
        return None;
    }
    Some(EndpointError { status, message, reason })
}

/// What a token-endpoint error body denotes: the error code and its
/// description — or nothing where the body does not follow the grammar.
/// The token endpoint writes `{"error":…,"error_description":…}`, both
/// fields strings, in that order.
pub open spec fn spec_parse_auth_envelope(s: Seq<char>) -> Option<(Seq<char>, Seq<char>)> {
    let i0 = spec_skip_ws(s, 0);
    if !spec_char_at(s, i0, '{') {
        None
    } else {
        let i1 = spec_skip_ws(s, i0 + 1);
        match spec_string(s, i1) {
            Some(k0) => {
                if k0.0 != "error"@ {
                    None
                } else {
                    let i2 = spec_skip_ws(s, k0.1);
                    if !spec_char_at(s, i2, ':') {
                        None
                    } else {
                        match spec_string(s, spec_skip_ws(s, i2 + 1)) {
                            Some(v0) => spec_parse_auth_rest(s, v0.1, v0.0),
                            None => None,
                        }
                    }
                }
            },
            None => None,
        }
    }
}

/// The `,"error_description":…}` part at `i`, given the parsed code.
pub open spec fn spec_parse_auth_rest(s: Seq<char>, i: int, code: Seq<char>) -> Option<
    (Seq<char>, Seq<char>),
> {
    let i0 = spec_skip_ws(s, i);
    if !spec_char_at(s, i0, ',') {
        None
    } else {
        let i1 = spec_skip_ws(s, i0 + 1);
        match spec_string(s, i1) {
            Some(k1) => {
                if k1.0 != "error_description"@ {
                    None
                } else {
                    let i2 = spec_skip_ws(s, k1.1);
                    if !spec_char_at(s, i2, ':') {
                        None
                    } else {
                        match spec_string(s, spec_skip_ws(s, i2 + 1)) {
                            Some(v1) => {
                                let i3 = spec_skip_ws(s, v1.1);
                                if !spec_char_at(s, i3, '}') {
                                    None
                                } else if spec_skip_ws(s, i3 + 1) != s.len() {
                                    None
                                } else {
                                    Some((code, v1.0))
                                }
                            },
                            None => None,
                        }
                    }
                }
            },
            None => None,
        }
    }
}

/// Parse a token-endpoint error body into an [`AuthError`].
///
/// Returns `None` exactly where the body does not follow the grammar
/// that [`spec_parse_auth_envelope`] states.
pub fn parse_auth_error(body: &str) -> (r: Option<AuthError>)
    ensures
        match r {
            Some(e) => spec_parse_auth_envelope(body@) == Some((e.error@, e.error_description@)),
            None => spec_parse_auth_envelope(body@) is None,
        },
{
    let v = crate::text::chars_of(body);
    let i0 = skip_ws(&v, 0);
    if !char_at(&v, i0, '{') {
        return None;
    }
    let i1 = skip_ws(&v, i0 + 1);
    let k0 = match parse_string(&v, i1) {
        Some(k0) => k0,
        None => {
            return None;
        },
    };
    if !crate::text::string_eq_lit(&k0.0, "error") {
        return None;
    }
    let i2 = skip_ws(&v, k0.1);
    if !char_at(&v, i2, ':') {
        return None;
    }
    let v0 = match parse_string(&v, skip_ws(&v, i2 + 1)) {
        Some(v0) => v0,
        None => {
            return None;
        },
    };
    parse_auth_rest(&v, v0.1, v0.0)
}

fn parse_auth_rest(v: &Vec<char>, i: usize, code: String) -> (r: Option<AuthError>)
    requires
        i <= v@.len(),
    ensures
        match r {
            Some(e) => {
                &&& spec_parse_auth_rest(v@, i as int, code@) == Some(
                    (e.error@, e.error_description@),
                )
            },
            None => spec_parse_auth_rest(v@, i as int, code@) is None,
        },
{
    let _n = v.len();
    let i0 = skip_ws(v, i);
    if !char_at(v, i0, ',') {
        return None;
    }
    let i1 = skip_ws(v, i0 + 1);
    let k1 = match parse_string(v, i1) {
        Some(k1) => k1,
        None => {
            return None;
        },
    };
    if !crate::text::string_eq_lit(&k1.0, "error_description") {
        return None;
    }
    let i2 = skip_ws(v, k1.1);
    if !char_at(v, i2, ':') {
        return None;
    }
    let v1 = match parse_string(v, skip_ws(v, i2 + 1)) {
        Some(v1) => v1,
        None => {
            return None;
        },
    };
    let i3 = skip_ws(v, v1.1);
    if !char_at(v, i3, '}') {
        return None;
    }
    if skip_ws(v, i3 + 1) != v.len() {
        return None;
    }
    Some(AuthError { error: code, error_description: v1.0 })
}

/// A character as it stands inside an emitted JSON string.
pub open spec fn spec_escape_char(c: char) -> Seq<char> {
    if c == '"' {
        seq!['\\', '"']
    } else if c == '\\' {
        seq!['\\', '\\']
    } else if c == '\n' {
        seq!['\\', 'n']
    } else if c == '\r' {
        seq!['\\', 'r']
    } else if c == '\t' {
        seq!['\\', 't']
    } else {
        seq![c]
    }
}

/// A string's content as it stands inside an emitted JSON string.
pub open spec fn spec_escape(s: Seq<char>) -> Seq<char>
    decreases s.len(),
{
    if s.len() == 0 {
        Seq::empty()
    } else {
        spec_escape(s.drop_last()) + spec_escape_char(s.last())
    }
}

/// Append `message`'s content, escaped, to `out`.
fn push_escaped(out: &mut String, message: &str)
    ensures
        final(out)@ == old(out)@ + spec_escape(message@),
{
    let len = message.unicode_len();
    let mut i: usize = 0;
    proof {
        assert(old(out)@ + spec_escape(message@.take(0)) =~= old(out)@);
    }
    while i < len
        invariant
            i <= len,
            len == message@.len(),
            out@ == old(out)@ + spec_escape(message@.take(i as int)),
        decreases len - i,
    {
        let c = message.get_char(i);
        if c == '"' {
            out.push('\\');
            out.push('"');
        } else if c == '\\' {
            out.push('\\');
            out.push('\\');
        } else if c == '\n' {
            out.push('\\');
            out.push('n');
        } else if c == '\r' {
            out.push('\\');
            out.push('r');
        } else if c == '\t' {
            out.push('\\');
            out.push('t');
        } else {
            out.push(c);
        }
        proof {
            assert(message@.take(i + 1).drop_last() =~= message@.take(i as int));
            assert(message@.take(i + 1).last() == message@[i as int]);
            assert(out@ =~= old(out)@ + spec_escape(message@.take(i + 1)));
        }
        i = i + 1;
    }
    proof {
        assert(message@.take(len as int) =~= message@);
    }
}

/// The canonical serialization of an error envelope: the fields in the
/// order `status`, `message`, `reason`, with a `null` reason written out.
pub open spec fn spec_emit_envelope(
    status: int,
    message: Seq<char>,
    reason: Option<PlayerErrorReason>,
) -> Seq<char> {
    "{\"error\":{\"status\":"@ + dec_digits_of(status) + ",\"message\":\""@ + spec_escape(message)
        + "\",\"reason\":"@ + (match reason {
        None => "null"@,
        Some(r) => seq!['"'] + spec_wire_name(r) + seq!['"'],
    }) + "}}"@
}

/// Reading a string body over characters that need no escaping stops at
/// the closing quote and accumulates exactly those characters.
proof fn lemma_string_body_plain(s: Seq<char>, i: int, j: int, acc: Seq<char>)
    requires
        0 <= i <= j < s.len(),
        forall|k: int| i <= k < j ==> s[k] != '"' && #[trigger] s[k] != '\\',
        s[j] == '"',
    ensures
        spec_string_body(s, i, acc) == Some((acc + s.subrange(i, j), j + 1)),
    decreases j - i,
{
    if i == j {
        assert(acc + s.subrange(i, j) =~= acc);
    } else {
        lemma_string_body_plain(s, i + 1, j, acc.push(s[i]));
        assert(acc.push(s[i]) + s.subrange(i + 1, j) =~= acc + s.subrange(i, j));
    }
}

/// Escaping decomposes from the front as well as from the back.
proof fn lemma_escape_front(m: Seq<char>)
    requires
        m.len() > 0,
    ensures
        spec_escape(m) == spec_escape_char(m[0]) + spec_escape(m.skip(1)),
    decreases m.len(),
{
    if m.len() == 1 {
        assert(m.drop_last() =~= Seq::<char>::empty());
        assert(m.skip(1) =~= Seq::<char>::empty());
        assert(spec_escape(m) =~= spec_escape_char(m[0]) + spec_escape(m.skip(1)));
    } else {
        lemma_escape_front(m.drop_last());
        assert(m.drop_last()[0] == m[0]);
        assert(m.drop_last().skip(1) =~= m.skip(1).drop_last());
        assert(m.skip(1).last() == m.last());
        assert(spec_escape(m.skip(1)) == spec_escape(m.skip(1).drop_last()) + spec_escape_char(
            m.skip(1).last(),
        ));
        assert(spec_escape(m) =~= spec_escape_char(m[0]) + spec_escape(m.skip(1)));
    }
}

/// Reading a string body over an escaped message followed by a closing
/// quote yields the message back.
proof fn lemma_string_body_escaped(s: Seq<char>, i: int, m: Seq<char>, acc: Seq<char>)
    requires
        0 <= i,
        i + spec_escape(m).len() < s.len(),
        s.subrange(i, i + spec_escape(m).len()) == spec_escape(m),
        s[i + spec_escape(m).len()] == '"',
    ensures
        spec_string_body(s, i, acc) == Some((acc + m, i + spec_escape(m).len() + 1)),
    decreases m.len(),
{
    if m.len() == 0 {
        assert(spec_escape(m).len() == 0);
        assert(acc + m =~= acc);
    } else {
        let c = m[0];
        let e0 = spec_escape_char(c);
        let rest = spec_escape(m.skip(1));
        lemma_escape_front(m);
        assert(spec_escape(m).len() == e0.len() + rest.len());
        assert forall|k: int| 0 <= k < spec_escape(m).len() implies s[i + k] == spec_escape(
            m,
        )[k] by {
            assert(s.subrange(i, i + spec_escape(m).len())[k] == s[i + k]);
        }
        assert forall|k: int|
            0 <= k < rest.len() implies s.subrange(
            i + e0.len(),
            i + e0.len() + rest.len(),
        )[k] == rest[k] by {
            assert(s[i + e0.len() + k] == spec_escape(m)[e0.len() + k]);
            assert(spec_escape(m)[e0.len() + k] == rest[k]);
        }
        assert(s.subrange(i + e0.len(), i + e0.len() + rest.len()) =~= rest);
        if e0.len() == 2 {
            assert(s[i + 0] == spec_escape(m)[0]);
            assert(spec_escape(m)[0] == e0[0]);
            assert(s[i] == '\\');
            assert(s[i + 1] == spec_escape(m)[1]);
            assert(spec_escape(m)[1] == e0[1]);
            assert(spec_unescape(e0[1]) == Some(c));
            lemma_string_body_escaped(s, i + 2, m.skip(1), acc.push(c));
            assert(acc.push(c) + m.skip(1) =~= acc + m);
        } else {
            assert(s[i + 0] == spec_escape(m)[0]);
            assert(spec_escape(m)[0] == e0[0]);
            assert(s[i] == c);
            assert(c != '"' && c != '\\');
            lemma_string_body_escaped(s, i + 1, m.skip(1), acc.push(c));
            assert(acc.push(c) + m.skip(1) =~= acc + m);
        }
    }
}

/// A run of digits bounded by a non-digit ends exactly at the bound.
proof fn lemma_digit_run_block(s: Seq<char>, i: int, j: int)
    requires
        0 <= i <= j <= s.len(),
        forall|k: int| i <= k < j ==> is_digit(#[trigger] s[k]),
        j == s.len() || !is_digit(s[j]),
    ensures
        spec_digit_run_end(s, i) == j,
    decreases j - i,
{
    if i < j {
        lemma_digit_run_block(s, i + 1, j);
    }
}

/// No wire name of a reason holds a quote or a backslash.
proof fn lemma_wire_name_clean(r: PlayerErrorReason)
    ensures
        forall|k: int|
            0 <= k < spec_wire_name(r).len() ==> spec_wire_name(r)[k] != '"' && #[trigger]
            spec_wire_name(r)[k] != '\\',
{
    broadcast use vstd::string::group_string_axioms;

    reveal_strlit("NO_PREV_TRACK");
    reveal_strlit("NO_NEXT_TRACK");
    reveal_strlit("NO_SPECIFIC_TRACK");
    reveal_strlit("ALREADY_PAUSED");
    reveal_strlit("NOT_PAUSED");
    reveal_strlit("NOT_PLAYING_LOCALLY");
    reveal_strlit("NOT_PLAYING_TRACK");
    reveal_strlit("NOT_PLAYING_CONTEXT");
    reveal_strlit("ENDLESS_CONTEXT");
    reveal_strlit("CONTEXT_DISALLOW");
    reveal_strlit("ALREADY_PLAYING");
    reveal_strlit("RATE_LIMITED");
    reveal_strlit("REMOTE_CONTROL_DISALLOW");
    reveal_strlit("DEVICE_NOT_CONTROLLABLE");
    reveal_strlit("VOLUME_CONTROL_DISALLOW");
    reveal_strlit("NO_ACTIVE_DEVICE");
    reveal_strlit("PREMIUM_REQUIRED");
    reveal_strlit("UNKNOWN");
}

/// The common layout bindings of an emitted envelope, re-proved in each
/// phase lemma: the emitted body is the head, the three status digits,
/// the message key, the escaped message, the reason key, the reason
/// value, and the closing braces.
///
/// An emitted envelope always parses back to exactly the status, message
/// and reason it was written from: the serializer and the parser agree
/// on every envelope the wire can carry.
#[verifier::rlimit(100)]
#[verifier::spinoff_prover]
pub proof fn lemma_envelope_roundtrip(
    status: int,
    message: Seq<char>,
    reason: Option<PlayerErrorReason>,
)
    requires
        100 <= status < 1000,
    ensures
        spec_parse_envelope(spec_emit_envelope(status, message, reason)) == Some(
            (status, message, reason),
        ),
{
    broadcast use vstd::string::group_string_axioms;

    reveal_strlit("{\"error\":{\"status\":");
    reveal_strlit(",\"message\":\"");
    reveal_strlit("\",\"reason\":");
    reveal_strlit("null");
    reveal_strlit("}}");
    reveal_strlit("error");
    reveal_strlit("status");
    let p1 = "{\"error\":{\"status\":"@;
    let d = dec_digits_of(status);
    let p2 = ",\"message\":\""@;
    let esc = spec_escape(message);
    let p3 = "\",\"reason\":"@;
    let rv = match reason {
        None => "null"@,
        Some(r) => seq!['"'] + spec_wire_name(r) + seq!['"'],
    };
    let p4 = "}}"@;
    let s = spec_emit_envelope(status, message, reason);
    crate::text::lemma_dec_digits_roundtrip(status);
    lemma_status_digits_len(status);
    let tail5 = rv + p4;
    let tail4 = p3 + tail5;
    let tail3 = esc + tail4;
    let tail2 = p2 + tail3;
    let tail1 = d + tail2;
    assert(s =~= p1 + tail1);
    assert forall|k: int| 0 <= k < 19 implies s[k] == p1[k] by {
        assert((p1 + tail1)[k] == p1[k]);
    }
    assert forall|k: int| 0 <= k < 3 implies s[19 + k] == d[k] by {
        assert((p1 + tail1)[19 + k] == tail1[k]);
        assert(tail1[k] == d[k]);
    }
    // The fixed head: the envelope opens and the `error` key follows.
    assert(s[0] == '{' && s[1] == '"' && s[2] == 'e' && s[3] == 'r' && s[4] == 'r');
    assert(s[5] == 'o' && s[6] == 'r' && s[7] == '"' && s[8] == ':' && s[9] == '{');
    assert(s[10] == '"' && s[11] == 's' && s[12] == 't' && s[13] == 'a' && s[14] == 't');
    assert(s[15] == 'u' && s[16] == 's' && s[17] == '"' && s[18] == ':');
    lemma_string_body_plain(s, 2, 7, Seq::empty());
    assert(Seq::empty() + s.subrange(2, 7) =~= s.subrange(2, 7));
    assert(s.subrange(2, 7) =~= "error"@);
    assert(spec_string(s, 1) == Some(("error"@, 8int)));
    lemma_string_body_plain(s, 11, 17, Seq::empty());
    assert(Seq::empty() + s.subrange(11, 17) =~= s.subrange(11, 17));
    assert(s.subrange(11, 17) =~= "status"@);
    assert(spec_string(s, 10) == Some(("status"@, 18int)));
    // The status digits, ended by the comma that opens the message key.
    assert(s[22] == tail2[0]);
    assert(s[22] == ',');
    lemma_digit_run_block(s, 19, 22);
    assert(s.subrange(19, 22) =~= d);
    assert(spec_number(s, 19) == Some((status, 22int)));
    lemma_roundtrip_from_message(status, message, reason);
    assert(spec_parse_inner(s, 9) == Some((status, message, reason)));
    assert(spec_parse_envelope(s) == Some((status, message, reason)));
}

/// The middle phase of the round trip: from the comma before the message
/// key, the parser reads the key and the escaped message back.
#[verifier::rlimit(100)]
#[verifier::spinoff_prover]
proof fn lemma_roundtrip_from_message(
    status: int,
    message: Seq<char>,
    reason: Option<PlayerErrorReason>,
)
    requires
        100 <= status < 1000,
    ensures
        spec_parse_after_status(spec_emit_envelope(status, message, reason), 22, status) == Some(
            (status, message, reason),
        ),
{
    broadcast use vstd::string::group_string_axioms;

    reveal_strlit("{\"error\":{\"status\":");
    reveal_strlit(",\"message\":\"");
    reveal_strlit("\",\"reason\":");
    reveal_strlit("null");
    reveal_strlit("}}");
    reveal_strlit("message");
    let p1 = "{\"error\":{\"status\":"@;
    let d = dec_digits_of(status);
    let p2 = ",\"message\":\""@;
    let esc = spec_escape(message);
    let p3 = "\",\"reason\":"@;
    let rv = match reason {
        None => "null"@,
        Some(r) => seq!['"'] + spec_wire_name(r) + seq!['"'],
    };
    let p4 = "}}"@;
    let s = spec_emit_envelope(status, message, reason);
    crate::text::lemma_dec_digits_roundtrip(status);
    lemma_status_digits_len(status);
    let o4 = 34 + esc.len() as int;
    let tail5 = rv + p4;
    let tail4 = p3 + tail5;
    let tail3 = esc + tail4;
    let tail2 = p2 + tail3;
    let tail1 = d + tail2;
    assert(s =~= p1 + tail1);
    assert forall|k: int| 0 <= k < 12 implies s[22 + k] == p2[k] by {
        assert((p1 + tail1)[22 + k] == tail1[3 + k]);
        assert(tail1[3 + k] == tail2[k]);
        assert(tail2[k] == p2[k]);
    }
    assert forall|k: int| 0 <= k < esc.len() implies s[34 + k] == esc[k] by {
        assert((p1 + tail1)[34 + k] == tail1[15 + k]);
        assert(tail1[15 + k] == tail2[12 + k]);
        assert(tail2[12 + k] == tail3[k]);
        assert(tail3[k] == esc[k]);
    }
    assert(s[o4] == '"') by {
        assert((p1 + tail1)[o4] == tail1[o4 - 19]);
        assert(tail1[o4 - 19] == tail2[o4 - 22]);
        assert(tail2[o4 - 22] == tail3[esc.len() as int]);
        assert(tail3[esc.len() as int] == tail4[0]);
        assert(tail4[0] == p3[0]);
        assert(p3[0] == '"');
    }
    // The message key.
    assert(s[22] == ',' && s[23] == '"' && s[24] == 'm' && s[25] == 'e' && s[26] == 's');
    assert(s[27] == 's' && s[28] == 'a' && s[29] == 'g' && s[30] == 'e' && s[31] == '"');
    assert(s[32] == ':' && s[33] == '"');
    lemma_string_body_plain(s, 24, 31, Seq::empty());
    assert(Seq::empty() + s.subrange(24, 31) =~= s.subrange(24, 31));
    assert(s.subrange(24, 31) =~= "message"@);
    assert(spec_string(s, 23) == Some(("message"@, 32int)));
    // The escaped message, closed by the quote before the reason key.
    assert(s.subrange(34, o4) =~= esc);
    lemma_string_body_escaped(s, 34, message, Seq::empty());
    assert(Seq::empty() + message =~= message);
    assert(spec_string(s, 33) == Some((message, o4 + 1)));
    lemma_roundtrip_from_reason(status, message, reason);
    assert(spec_parse_after_status(s, 22, status) == Some((status, message, reason)));
}

/// The last phase of the round trip: from the comma before the reason
/// key, the parser reads the reason value and the closing braces back.
#[verifier::rlimit(100)]
#[verifier::spinoff_prover]
proof fn lemma_roundtrip_from_reason(
    status: int,
    message: Seq<char>,
    reason: Option<PlayerErrorReason>,
)
    requires
        100 <= status < 1000,
    ensures
        spec_parse_after_message(
            spec_emit_envelope(status, message, reason),
            35 + spec_escape(message).len() as int,
            status,
            message,
        ) == Some((status, message, reason)),
{
    broadcast use vstd::string::group_string_axioms;

    reveal_strlit("{\"error\":{\"status\":");
    reveal_strlit(",\"message\":\"");
    reveal_strlit("\",\"reason\":");
    reveal_strlit("null");
    reveal_strlit("}}");
    reveal_strlit("reason");
    let p1 = "{\"error\":{\"status\":"@;
    let d = dec_digits_of(status);
    let p2 = ",\"message\":\""@;
    let esc = spec_escape(message);
    let p3 = "\",\"reason\":"@;
    let rv = match reason {
        None => "null"@,
        Some(r) => seq!['"'] + spec_wire_name(r) + seq!['"'],
    };
    let p4 = "}}"@;
    let s = spec_emit_envelope(status, message, reason);
    crate::text::lemma_dec_digits_roundtrip(status);
    lemma_status_digits_len(status);
    let o4 = 34 + esc.len() as int;
    let o5 = o4 + 11;
    let o6 = o5 + rv.len() as int;
    let tail5 = rv + p4;
    let tail4 = p3 + tail5;
    let tail3 = esc + tail4;
    let tail2 = p2 + tail3;
    let tail1 = d + tail2;
    assert(s =~= p1 + tail1);
    assert(s.len() == o6 + 2);
    assert forall|k: int| 0 <= k < 11 implies s[o4 + k] == p3[k] by {
        assert((p1 + tail1)[o4 + k] == tail1[o4 - 19 + k]);
        assert(tail1[o4 - 19 + k] == tail2[o4 - 22 + k]);
        assert(tail2[o4 - 22 + k] == tail3[o4 - 34 + k]);
        assert(tail3[esc.len() + k] == tail4[k]);
        assert(tail4[k] == p3[k]);
    }
    assert forall|k: int| 0 <= k < rv.len() implies s[o5 + k] == rv[k] by {
        assert((p1 + tail1)[o5 + k] == tail1[o5 - 19 + k]);
        assert(tail1[o5 - 19 + k] == tail2[o5 - 22 + k]);
        assert(tail2[o5 - 22 + k] == tail3[o5 - 34 + k]);
        assert(tail3[esc.len() + 11 + k] == tail4[11 + k]);
        assert(tail4[11 + k] == tail5[k]);
        assert(tail5[k] == rv[k]);
    }
    assert forall|k: int| 0 <= k < 2 implies s[o6 + k] == p4[k] by {
        assert((p1 + tail1)[o6 + k] == tail1[o6 - 19 + k]);
        assert(tail1[o6 - 19 + k] == tail2[o6 - 22 + k]);
        assert(tail2[o6 - 22 + k] == tail3[o6 - 34 + k]);
        assert(tail3[esc.len() + 11 + rv.len() + k] == tail4[11 + rv.len() + k]);
        assert(tail4[11 + rv.len() + k] == tail5[rv.len() + k]);
        assert(tail5[rv.len() + k] == p4[k]);
    }
    // The reason key.
    assert(s[o4] == '"' && s[o4 + 1] == ',' && s[o4 + 2] == '"');
    assert(s[o4 + 3] == 'r' && s[o4 + 4] == 'e' && s[o4 + 5] == 'a' && s[o4 + 6] == 's');
    assert(s[o4 + 7] == 'o' && s[o4 + 8] == 'n' && s[o4 + 9] == '"' && s[o4 + 10] == ':');
    lemma_string_body_plain(s, o4 + 3, o4 + 9, Seq::empty());
    assert(Seq::empty() + s.subrange(o4 + 3, o4 + 9) =~= s.subrange(o4 + 3, o4 + 9));
    assert(s.subrange(o4 + 3, o4 + 9) =~= "reason"@);
    assert(spec_string(s, o4 + 2) == Some(("reason"@, o4 + 10)));
    // The reason value.
    match reason {
        None => {
            assert(s[o5] == 'n' && s[o5 + 1] == 'u' && s[o5 + 2] == 'l' && s[o5 + 3] == 'l');
            assert(spec_null_at(s, o5));
            assert(spec_reason_value(s, o5) == Some((reason, o6)));
        },
        Some(r) => {
            let name = spec_wire_name(r);
            lemma_wire_name_clean(r);
            assert(rv[0] == '"');
            assert(rv[name.len() as int + 1] == '"');
            assert forall|k: int| 0 <= k < name.len() implies rv[1 + k] == name[k] by {
                assert((seq!['"'] + name)[1 + k] == name[k]);
            }
            assert(s[o5] == '"');
            assert(s[o5 + 1 + name.len()] == '"');
            assert(!spec_null_at(s, o5));
            lemma_string_body_plain(s, o5 + 1, o5 + 1 + name.len(), Seq::empty());
            assert(Seq::empty() + s.subrange(o5 + 1, o5 + 1 + name.len()) =~= s.subrange(
                o5 + 1,
                o5 + 1 + name.len(),
            ));
            assert(s.subrange(o5 + 1, o5 + 1 + name.len()) =~= name);
            assert(spec_string(s, o5) == Some((name, o6)));
            crate::errors::lemma_wire_name_roundtrip(r);
            assert(spec_reason_value(s, o5) == Some((reason, o6)));
        },
    }
    // The closing braces and the end of the body.
    assert(s[o6] == '}' && s[o6 + 1] == '}');
    assert(spec_parse_end(s, o6 + 1, status, message, reason) == Some((status, message, reason)));
    assert(spec_parse_after_message(s, o4 + 1, status, message) == Some(
        (status, message, reason),
    ));
}

/// A status code in the wire's range is written with three digits.
proof fn lemma_status_digits_len(n: int)
    requires
        100 <= n < 1000,
    ensures
        dec_digits_of(n).len() == 3,
{
    assert(10 <= n / 10 < 100) by (nonlinear_arith)
        requires
            100 <= n < 1000,
    ;
    assert(1 <= n / 10 / 10 < 10) by (nonlinear_arith)
        requires
            10 <= n / 10 < 100,
    ;
    assert(dec_digits_of(n / 10 / 10).len() == 1);
    assert(dec_digits_of(n / 10).len() == 2);
}

/// Serialize an error envelope the way the wire format writes it.
pub fn error_envelope_to_json(e: &EndpointError) -> (r: String)
    ensures
        r@ == spec_emit_envelope(e.status as int, e.message@, e.reason),
{
    let mut out = String::from_str("{\"error\":{\"status\":");
    crate::text::push_decimal(&mut out, e.status as u64);
    out.append(",\"message\":\"");
    push_escaped(&mut out, e.message.as_str());
    out.append("\",\"reason\":");
    match e.reason {
        None => {
            out.append("null");
        },
        Some(reason) => {
            out.push('"');
            out.append(reason.wire_name());
            out.push('"');
        },
    }
    out.append("}}");
    proof {
        assert(out@ =~= spec_emit_envelope(e.status as int, e.message@, e.reason));
    }
    out
}

} // verus!
