//! `lumi://` URIs.
use super::error::LmpError;
use crate::text::{
    char_is_whitespace, chars_of, same_text, string_of_range, string_push, whitespace,
};
use vstd::prelude::*;
use vstd::std_specs::cmp::PartialEqSpecImpl;

verus! {

/// The port that a URI without one denotes.
pub const DEFAULT_PORT: u16 = 9001;

/// A URI as a host, a port and a path.
pub struct UriParts {
    pub host: Seq<char>,
    pub port: u16,
    pub path: Seq<char>,
}

/// `s` without the whitespace at its start.
pub open spec fn trim_start(s: Seq<char>) -> Seq<char>
    decreases s.len(),
{
    if s.len() > 0 && whitespace(s[0]) {
        trim_start(s.drop_first())
    } else {
        s
    }
}

/// `s` without the whitespace at its end.
pub open spec fn trim_end(s: Seq<char>) -> Seq<char>
    decreases s.len(),
{
    if s.len() > 0 && whitespace(s.last()) {
        trim_end(s.drop_last())
    } else {
        s
    }
}

/// `s` without the whitespace at either end.
pub open spec fn trim(s: Seq<char>) -> Seq<char> {
    trim_end(trim_start(s))
}

/// The index of the first `c` in `s`, or the length of `s` when there is
/// none.
pub open spec fn find_char(s: Seq<char>, c: char) -> int
    decreases s.len(),
{
    if s.len() == 0 {
        0
    } else if s[0] == c {
        0
    } else {
        1 + find_char(s.drop_first(), c)
    }
}

pub open spec fn is_digit(c: char) -> bool {
    '0' <= c <= '9'
}

/// The number that a sequence of decimal digits writes.
pub open spec fn digits_value(d: Seq<char>) -> int
    decreases d.len(),
{
    if d.len() == 0 {
        0
    } else {
        digits_value(d.drop_last()) * 10 + (d.last() as int - '0' as int)
    }
}

/// Whether every character of `d` is a decimal digit.
pub open spec fn all_digits(d: Seq<char>) -> bool {
    forall|i: int| 0 <= i < d.len() ==> is_digit(#[trigger] d[i])
}

/// The digits of a port number: the text without one leading `+`.
pub open spec fn port_digits(s: Seq<char>) -> Seq<char> {
    if s.len() > 0 && s[0] == '+' {
        s.drop_first()
    } else {
        s
    }
}

/// A port number as text: an optional `+`, then at least one decimal
/// digit, and a value that fits in 16 bits.
pub open spec fn parse_port(s: Seq<char>) -> Option<u16> {
    let d = port_digits(s);
    if d.len() > 0 && all_digits(d) && digits_value(d) <= 65535 {
        Some(digits_value(d) as u16)
    } else {
        None
    }
}

/// What a URI text denotes. Surrounding whitespace is ignored; the text
/// must start with `lumi://`. The authority runs to the first `/`, and the
/// path is `/` followed by what comes after that `/`. The host runs to the
/// first `:` of the authority; what follows that `:` is the port, which is
/// the default one when it is absent or not a valid port number.
pub open spec fn parse_uri(input: Seq<char>) -> Option<UriParts> {
    let t = trim(input);
    if t.len() >= 7 && t.take(7) == "lumi://"@ {
        let rest = t.skip(7);
        let slash = find_char(rest, '/');
        let authority = rest.take(slash);
        let tail = if slash < rest.len() {
            rest.skip(slash + 1)
        } else {
            Seq::empty()
        };
        let colon = find_char(authority, ':');
        let port = if colon < authority.len() {
            match parse_port(authority.skip(colon + 1)) {
                Some(p) => p,
                None => DEFAULT_PORT,
            }
        } else {
            DEFAULT_PORT
        };
        Some(UriParts { host: authority.take(colon), port, path: "/"@ + tail })
    } else {
        None
    }
}

/// The text of a URI: the scheme, the host and the path; the port is not
/// written.
pub open spec fn uri_text(u: UriParts) -> Seq<char> {
    "lumi://"@ + u.host + u.path
}

/// A parsed `lumi://` URI.
#[derive(Debug, Clone)]
pub struct LumiUri {
    pub host: String,
    pub port: u16,
    pub path: String,
}

impl PartialEq for LumiUri {
    fn eq(&self, other: &Self) -> (r: bool) {
        same_text(self.host.as_str(), other.host.as_str()) && self.port == other.port && same_text(
            self.path.as_str(),
            other.path.as_str(),
        )
    }
}

impl PartialEqSpecImpl for LumiUri {
    open spec fn obeys_eq_spec() -> bool {
        true
    }

    open spec fn eq_spec(&self, other: &LumiUri) -> bool {
        self@ == other@
    }
}

impl Eq for LumiUri {

}

impl View for LumiUri {
    type V = UriParts;

    open spec fn view(&self) -> UriParts {
        UriParts { host: self.host@, port: self.port, path: self.path@ }
    }
}

/// `find_char` is the index of the first `c`, or the length when there is none.
pub proof fn lemma_find_char_bounds(s: Seq<char>, c: char)
    ensures
        0 <= find_char(s, c) <= s.len(),
        find_char(s, c) < s.len() ==> s[find_char(s, c)] == c,
        forall|j: int| 0 <= j < find_char(s, c) ==> s[j] != c,
    decreases s.len(),
{
    if s.len() > 0 && s[0] != c {
        lemma_find_char_bounds(s.drop_first(), c);
        assert forall|j: int| 0 <= j < find_char(s, c) implies s[j] != c by {
            if j > 0 {
                assert(s[j] == s.drop_first()[j - 1]);
            }
        }
    }
}

/// The first index at or after `from` where `v` holds `c`, or `to`.
fn find_in(v: &Vec<char>, from: usize, to: usize, c: char) -> (r: usize)
    requires
        from <= to <= v@.len(),
    ensures
        from <= r <= to,
        r - from == find_char(v@.subrange(from as int, to as int), c),
{
    let mut i = from;
    while i < to && v[i] != c
        invariant
            from <= i <= to <= v@.len(),
            forall|j: int| from <= j < i ==> v@[j] != c,
        decreases to - i,
    {
        i = i + 1;
    }
    proof {
        let s = v@.subrange(from as int, to as int);
        lemma_find_char_bounds(s, c);
        let f = find_char(s, c);
        if f < i - from {
            assert(s[f] == v@[from + f]);
        } else if f > i - from {
            assert(s[i - from] == v@[i as int]);
        }
    }
    i
}

proof fn lemma_digits_value_bounds(d: Seq<char>)
    requires
        forall|i: int| 0 <= i < d.len() ==> is_digit(#[trigger] d[i]),
    ensures
        digits_value(d) >= 0,
    decreases d.len(),
{
    if d.len() > 0 {
        lemma_digits_value_bounds(d.drop_last());
    }
}

proof fn lemma_digits_value_prefix(d: Seq<char>, k: int)
    requires
        0 <= k <= d.len(),
        forall|i: int| 0 <= i < d.len() ==> is_digit(#[trigger] d[i]),
    ensures
        digits_value(d) >= digits_value(d.take(k)),
    decreases d.len(),
{
    if k < d.len() {
        lemma_digits_value_prefix(d.drop_last(), k);
        lemma_digits_value_bounds(d.drop_last());
        assert(d.drop_last().take(k) =~= d.take(k));
    } else {
        assert(d.take(k) =~= d);
    }
}

/// The port written in `v[from..to]`, if it is a valid port number.
fn parse_port_in(v: &Vec<char>, from: usize, to: usize) -> (r: Option<u16>)
    requires
        from <= to <= v@.len(),
    ensures
        r == parse_port(v@.subrange(from as int, to as int)),
{
    let ghost s = v@.subrange(from as int, to as int);
    let mut start = from;
    if start < to && v[start] == '+' {
        start = start + 1;
    }
    let ghost d = v@.subrange(start as int, to as int);
    assert(d =~= port_digits(s));
    if start == to {
        assert(d.len() == 0);
        return None;
    }
    let mut value: u32 = 0;
    let mut i = start;
    while i < to
        invariant
            from <= start <= i <= to <= v@.len(),
            s == v@.subrange(from as int, to as int),
            d == v@.subrange(start as int, to as int),
            d == port_digits(s),
            forall|j: int| start <= j < i ==> is_digit(#[trigger] v@[j]),
            value == digits_value(v@.subrange(start as int, i as int)),
            value <= 65535,
        decreases to - i,
    {
        let c = v[i];
        if !('0' <= c && c <= '9') {
            assert(d[i - start] == c);
            assert(!is_digit(d[i - start]));
            assert(!all_digits(d));
            assert(parse_port(s) is None);
            return None;
        }
        let digit = (c as u32) - ('0' as u32);
        assert(v@.subrange(start as int, i + 1).drop_last() =~= v@.subrange(start as int, i as int));
        if value > 6553 || (value == 6553 && digit > 5) {
            proof {
                let x = v@.subrange(start as int, i + 1);
                assert(x.last() == c);
                assert(digits_value(x) == value * 10 + digit);
                if all_digits(d) {
                    lemma_digits_value_prefix(d, i - start + 1);
                    assert(d.take(i - start + 1) =~= x);
                    assert(digits_value(d) > 65535);
                }
                assert(parse_port(s) is None);
            }
            return None;
        }
        value = value * 10 + digit;
        i = i + 1;
    }
    assert(d =~= v@.subrange(start as int, i as int));
    Some(value as u16)
}

impl LumiUri {
    /// Reads a `lumi://` URI; fails with `InvalidScheme` when the text,
    /// without surrounding whitespace, does not start with `lumi://`.
    pub fn parse(input: &str) -> (r: Result<LumiUri, LmpError>)
        ensures
            match r {
                Ok(u) => parse_uri(input@) == Some(u@),
                Err(e) => parse_uri(input@) is None && e is InvalidScheme,
            },
    {
        let v = chars_of(input);
        let mut start: usize = 0;
        assert(v@.subrange(0, v@.len() as int) =~= v@);
        while start < v.len() && char_is_whitespace(v[start])
            invariant
                start <= v@.len(),
                trim_start(v@) == trim_start(v@.subrange(start as int, v@.len() as int)),
            decreases v.len() - start,
        {
            assert(v@.subrange(start + 1, v@.len() as int) =~= v@.subrange(
                start as int,
                v@.len() as int,
            ).drop_first());
            start = start + 1;
        }
        let mut end: usize = v.len();
        while end > start && char_is_whitespace(v[end - 1])
            invariant
                start <= end <= v@.len(),
                trim(v@) == trim_end(v@.subrange(start as int, end as int)),
            decreases end,
        {
            assert(v@.subrange(start as int, end - 1) =~= v@.subrange(
                start as int,
                end as int,
            ).drop_last());
            end = end - 1;
        }
        let ghost t = v@.subrange(start as int, end as int);
        assert(trim(v@) == t);
        if end - start < 7 || v[start] != 'l' || v[start + 1] != 'u' || v[start + 2] != 'm' || v[start
            + 3] != 'i' || v[start + 4] != ':' || v[start + 5] != '/' || v[start + 6] != '/' {
            proof {
                reveal_strlit("lumi://");
                if t.len() >= 7 && t.take(7) == "lumi://"@ {
                    assert(t.take(7)[0] == 'l');
                    assert(t.take(7)[1] == 'u');
                    assert(t.take(7)[2] == 'm');
                    assert(t.take(7)[3] == 'i');
                    assert(t.take(7)[4] == ':');
                    assert(t.take(7)[5] == '/');
                    assert(t.take(7)[6] == '/');
                }
            }
            return Err(LmpError::InvalidScheme);
        }
        proof {
            reveal_strlit("lumi://");
            assert(t.take(7) =~= "lumi://"@);
        }
        let rest = start + 7;
        let ghost rs = t.skip(7);
        assert(rs =~= v@.subrange(rest as int, end as int));
        let slash = find_in(&v, rest, end, '/');
        let ghost authority = rs.take(slash - rest);
        assert(authority =~= v@.subrange(rest as int, slash as int));
        let mut path = String::from_str("/");
        proof {
            reveal_strlit("/");
        }
        if slash < end {
            let tail = string_of_range(v.as_slice(), slash + 1, end);
            path.append(tail.as_str());
            assert(rs.skip(slash - rest + 1) =~= v@.subrange(slash + 1, end as int));
        } else {
            assert(path@ =~= "/"@ + Seq::<char>::empty());
        }
        let colon = find_in(&v, rest, slash, ':');
        let host = string_of_range(v.as_slice(), rest, colon);
        assert(authority.take(colon - rest) =~= v@.subrange(rest as int, colon as int));
        let port = if colon < slash {
            assert(authority.skip(colon - rest + 1) =~= v@.subrange(colon + 1, slash as int));
            match parse_port_in(&v, colon + 1, slash) {
                Some(p) => p,
                None => DEFAULT_PORT,
            }
        } else {
            DEFAULT_PORT
        };
        Ok(LumiUri { host, port, path })
    }

    /// The text of the URI: `lumi://`, the host and the path.
    pub fn to_string_uri(&self) -> (r: String)
        ensures
            r@ == uri_text(self@),
    {
        let mut r = String::from_str("lumi://");
        r.append(self.host.as_str());
        r.append(self.path.as_str());
        r
    }
}

/// Writing a URI as text and reading the text back gives the same URI,
/// when the host holds neither `:` nor `/`, the path starts with `/`, the
/// port is the default one (the text does not carry the port), and the
/// text has no whitespace at either end.
pub proof fn law_uri_text_roundtrip(u: UriParts)
    requires
        !u.host.contains(':'),
        !u.host.contains('/'),
        u.path.len() >= 1,
        u.path[0] == '/',
        u.port == DEFAULT_PORT,
        trim(uri_text(u)) == uri_text(u),
    ensures
        parse_uri(uri_text(u)) == Some(u),
{
    reveal_strlit("lumi://");
    reveal_strlit("/");
    let t = uri_text(u);
    assert(t.take(7) =~= "lumi://"@);
    let rest = t.skip(7);
    assert(rest =~= u.host + u.path);
    lemma_find_char_bounds(rest, '/');
    let slash = find_char(rest, '/');
    if slash < u.host.len() {
        assert(u.host[slash] == rest[slash]);
        assert(u.host.contains('/'));
    }
    assert(rest[u.host.len() as int] == '/');
    assert(slash == u.host.len());
    let authority = rest.take(slash);
    assert(authority =~= u.host);
    assert("/"@ + rest.skip(slash + 1) =~= u.path);
    lemma_find_char_bounds(authority, ':');
    let colon = find_char(authority, ':');
    if colon < authority.len() {
        assert(u.host[colon] == ':');
        assert(u.host.contains(':'));
    }
    assert(authority.take(colon) =~= u.host);
}

/// What is left after trimming the end does not end in whitespace.
proof fn lemma_trim_end_last(s: Seq<char>)
    ensures
        trim_end(s).len() > 0 ==> !whitespace(trim_end(s).last()),
        trim_end(s).len() <= s.len(),
        trim_end(s) == s.take(trim_end(s).len() as int),
    decreases s.len(),
{
    if s.len() > 0 && whitespace(s.last()) {
        lemma_trim_end_last(s.drop_last());
        assert(s.drop_last().take(trim_end(s).len() as int) =~= s.take(trim_end(s).len() as int));
    } else {
        assert(s.take(s.len() as int) =~= s);
    }
}

/// A URI that was read from text has a host without `:` or `/` and a path
/// that starts with `/`; writing it as text and reading that text back
/// gives the same URI, on the default port.
pub proof fn law_parsed_uri_roundtrip(s: Seq<char>)
    requires
        parse_uri(s) is Some,
    ensures
        ({
            let u = parse_uri(s)->Some_0;
            &&& !u.host.contains(':')
            &&& !u.host.contains('/')
            &&& u.path.len() >= 1 && u.path[0] == '/'
            &&& parse_uri(uri_text(u)) == Some(UriParts { port: DEFAULT_PORT, ..u })
        }),
{
    reveal_strlit("lumi://");
    reveal_strlit("/");
    let u = parse_uri(s)->Some_0;
    let t = trim(s);
    let rest = t.skip(7);
    lemma_find_char_bounds(rest, '/');
    let slash = find_char(rest, '/');
    let authority = rest.take(slash);
    lemma_find_char_bounds(authority, ':');
    let colon = find_char(authority, ':');
    let tail = if slash < rest.len() {
        rest.skip(slash + 1)
    } else {
        Seq::empty()
    };
    assert(u.host =~= authority.take(colon));
    assert(u.path =~= "/"@ + tail);
    if u.host.contains(':') {
        let k = choose|k: int| 0 <= k < u.host.len() && u.host[k] == ':';
        assert(authority[k] == ':');
    }
    if u.host.contains('/') {
        let k = choose|k: int| 0 <= k < u.host.len() && u.host[k] == '/';
        assert(rest[k] == '/');
    }
    let v = UriParts { port: DEFAULT_PORT, ..u };
    let x = uri_text(v);
    assert(x[0] == 'l');
    assert(!whitespace(x[0]));
    assert(trim_start(x) == x);
    lemma_trim_end_last(trim_start(s));
    if tail.len() > 0 {
        assert(x.last() == tail.last());
        assert(tail.last() == t.last());
    } else {
        assert(x.last() == '/');
    }
    assert(!whitespace(x.last()));
    assert(trim_end(x) == x);
    law_uri_text_roundtrip(v);
}

} // verus!
