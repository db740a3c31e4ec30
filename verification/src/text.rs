//! Character-level helpers shared by the parsers.
use vstd::prelude::*;

verus! {

/// Whether a character outside ASCII has the Unicode `Alphabetic` or
/// `Numeric` property.
pub uninterp spec fn unicode_alphanumeric(c: char) -> bool;

/// Whether a character outside ASCII has the Unicode `White_Space`
/// property.
pub uninterp spec fn unicode_whitespace(c: char) -> bool;

/// Whether a character is alphabetic or numeric: within ASCII the letters
/// and the decimal digits, the only ASCII characters with the Unicode
/// `Alphabetic` or `Numeric` property.
pub open spec fn alphanumeric(c: char) -> bool {
    let n = c as u32;
    if n < 0x80 {
        (0x61 <= n <= 0x7a) || (0x41 <= n <= 0x5a) || (0x30 <= n <= 0x39)
    } else {
        unicode_alphanumeric(c)
    }
}

/// Whether a character is whitespace: within ASCII the space, tab, line
/// feed, vertical tab, form feed and carriage return, the only ASCII
/// characters with the Unicode `White_Space` property.
pub open spec fn whitespace(c: char) -> bool {
    let n = c as u32;
    if n < 0x80 {
        n == 0x20 || (0x09 <= n <= 0x0d)
    } else {
        unicode_whitespace(c)
    }
}

/// Calls `char::is_alphanumeric`, which decides the Unicode `Alphabetic` or
/// `Numeric` property of `c`; outside ASCII its result is named
/// `unicode_alphanumeric`.
#[verifier::external_body]
pub(crate) fn char_is_alphanumeric(c: char) -> (r: bool)
    ensures
        r == alphanumeric(c),
        c as u32 >= 0x80 ==> r == unicode_alphanumeric(c),
{
    c.is_alphanumeric()
}

/// Calls `char::is_whitespace`, which decides the Unicode `White_Space`
/// property of `c`; outside ASCII its result is named `unicode_whitespace`.
#[verifier::external_body]
pub(crate) fn char_is_whitespace(c: char) -> (r: bool)
    ensures
        r == whitespace(c),
        c as u32 >= 0x80 ==> r == unicode_whitespace(c),
{
    c.is_whitespace()
}

/// Calls `String::push`, which appends `c` to the end of `s`.
#[verifier::external_body]
pub(crate) fn string_push(s: &mut String, c: char)
    ensures
        final(s)@ == old(s)@.push(c),
{
    s.push(c)
}

/// The characters of `s`, in order.
pub fn chars_of(s: &str) -> (v: Vec<char>)
    ensures
        v@ == s@,
{
    let mut v: Vec<char> = Vec::new();
    for c in it: s.chars()
        invariant
            v@ == it.seq().take(it.index() as int),
    {
        v.push(c);
    }
    v
}

/// The string made of the characters `s[from..to]`.
pub fn string_of_range(s: &[char], from: usize, to: usize) -> (r: String)
    requires
        from <= to <= s@.len(),
    ensures
        r@ == s@.subrange(from as int, to as int),
{
    let mut r = String::new();
    let mut i = from;
    while i < to
        invariant
            from <= i <= to <= s@.len(),
            r@ == s@.subrange(from as int, i as int),
        decreases to - i,
    {
        string_push(&mut r, s[i]);
        i = i + 1;
    }
    r
}

/// The string made of all the characters of `s`.
pub fn string_of(s: &Vec<char>) -> (r: String)
    ensures
        r@ == s@,
{
    let r = string_of_range(s.as_slice(), 0, s.len());
    assert(s@.subrange(0, s@.len() as int) =~= s@);
    r
}

/// Whether two strings hold the same characters.
pub fn same_text(a: &str, b: &str) -> (r: bool)
    ensures
        r == (a@ == b@),
{
    let x = chars_of(a);
    let y = chars_of(b);
    if x.len() != y.len() {
        return false;
    }
    let mut i: usize = 0;
    while i < x.len()
        invariant
            x@ == a@,
            y@ == b@,
            x@.len() == y@.len(),
            i <= x@.len(),
            forall|j: int| 0 <= j < i ==> x@[j] == y@[j],
        decreases x.len() - i,
    {
        if x[i] != y[i] {
            return false;
        }
        i = i + 1;
    }
    assert(x@ =~= y@);
    true
}

/// The map that a list of name and value pairs describes; a later pair
/// with the same name replaces an earlier one.
pub open spec fn pairs_map(a: Seq<(String, String)>) -> Map<Seq<char>, Seq<char>>
    decreases a.len(),
{
    if a.len() == 0 {
        Map::empty()
    } else {
        pairs_map(a.drop_last()).insert(a.last().0@, a.last().1@)
    }
}

/// Pairs whose key is not `k` do not change what the map holds for `k`.
pub proof fn lemma_pairs_map_prefix(a: Seq<(String, String)>, i: int, k: Seq<char>)
    requires
        0 <= i <= a.len(),
        forall|j: int| i <= j < a.len() ==> a[j].0@ != k,
    ensures
        pairs_map(a).contains_key(k) == pairs_map(a.take(i)).contains_key(k),
        pairs_map(a).contains_key(k) ==> pairs_map(a)[k] == pairs_map(a.take(i))[k],
    decreases a.len(),
{
    if a.len() > i {
        lemma_pairs_map_prefix(a.drop_last(), i, k);
        assert(a.drop_last().take(i) =~= a.take(i));
    } else {
        assert(a.take(i) =~= a);
    }
}

/// Every name in a list of pairs is a key of its map.
pub proof fn lemma_pairs_map_has_keys(a: Seq<(String, String)>, j: int)
    requires
        0 <= j < a.len(),
    ensures
        pairs_map(a).contains_key(a[j].0@),
    decreases a.len(),
{
    if j < a.len() - 1 {
        lemma_pairs_map_has_keys(a.drop_last(), j);
    }
}

/// Replacing the last pair named `p.0` by `p` sets that name to `p.1`.
pub proof fn lemma_pairs_map_update(a: Seq<(String, String)>, i: int, p: (String, String))
    requires
        0 <= i < a.len(),
        a[i].0@ == p.0@,
        forall|j: int| i < j < a.len() ==> a[j].0@ != p.0@,
    ensures
        pairs_map(a.update(i, p)) == pairs_map(a).insert(p.0@, p.1@),
    decreases a.len(),
{
    let b = a.update(i, p);
    if i == a.len() - 1 {
        assert(b.drop_last() =~= a.drop_last());
        assert(pairs_map(b) =~= pairs_map(a).insert(p.0@, p.1@));
    } else {
        assert(b.drop_last() =~= a.drop_last().update(i, p));
        lemma_pairs_map_update(a.drop_last(), i, p);
        assert(pairs_map(b) =~= pairs_map(a).insert(p.0@, p.1@));
    }
}

/// No two pairs of the list have the same name.
pub open spec fn keys_unique(a: Seq<(String, String)>) -> bool {
    forall|i: int, j: int| 0 <= i < j < a.len() ==> a[i].0@ != a[j].0@
}

/// The position of the last pair named `key`, which holds the value that
/// `pairs_map` gives for it.
pub fn last_index_of(a: &Vec<(String, String)>, key: &str) -> (r: Option<usize>)
    ensures
        match r {
            Some(i) => i < a@.len() && a@[i as int].0@ == key@ && pairs_map(a@).contains_key(key@)
                && pairs_map(a@)[key@] == a@[i as int].1@
                && forall|j: int| i < j < a@.len() ==> a@[j].0@ != key@,
            None => !pairs_map(a@).contains_key(key@),
        },
{
    let mut i = a.len();
    while i > 0
        invariant
            i <= a@.len(),
            forall|j: int| i <= j < a@.len() ==> a@[j].0@ != key@,
        decreases i,
    {
        if same_text(a[i - 1].0.as_str(), key) {
            proof {
                lemma_pairs_map_prefix(a@, i as int, key@);
                assert(a@.take(i as int).drop_last() =~= a@.take(i - 1));
            }
            return Some(i - 1);
        }
        i = i - 1;
    }
    proof {
        lemma_pairs_map_prefix(a@, 0, key@);
    }
    None
}

} // verus!
